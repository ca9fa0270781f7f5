//! The replay session: frame counter, input/state log, sync checkpoint
//! log, the live ghosts, drift correction, and the event protocol.
//!
//! One simulation tick runs the phases in a fixed order: the frame
//! counter advances first (every ghost ages with it), the ghosts then
//! read the log and are drift-corrected, and the recording systems
//! write the player's state and — on sync frames — its position last,
//! so a log entry for frame F is visible to ghosts from frame F + 1 on.

use std::collections::HashMap;
use vstd::prelude::*;

use crate::player::{Jump, Player, Vel};

verus! {

broadcast use vstd::std_specs::hash::group_hash_axioms;

/// An absolute position, in fixed-point world units (the engine's
/// floating-point coordinates are scaled to integers at the boundary).
#[derive(Clone, Copy, Debug, PartialEq, Eq, Structural)]
pub struct Pos {
    pub x: i64,
    pub y: i64,
    pub z: i64,
}

impl Pos {
    /// The origin, where the player is put back after being caught.
    pub fn origin() -> (r: Pos)
        ensures
            r == (Pos { x: 0, y: 0, z: 0 }),
    {
        Pos { x: 0, y: 0, z: 0 }
    }
}

/// The score counter: one point per collected pickup, reset to zero
/// when the player is caught by a ghost.
#[derive(Clone, Copy, Debug, PartialEq, Eq, Structural)]
pub struct Score(pub usize);

/// The player's physical state as captured once per frame: what a
/// ghost re-enacts when it replays that frame.
#[derive(Clone, Copy, Debug, PartialEq, Eq, Structural)]
pub struct PlayerState {
    pub velocity: Vel,
    pub jump: Jump,
    pub skin: Player,
}

/// The frame-indexed input/state log. Recording the same frame twice
/// keeps only the latest value; a frame never recorded looks up to
/// nothing.
pub struct PlayerInputs {
    map: HashMap<u64, PlayerState>,
}

impl View for PlayerInputs {
    type V = Map<u64, PlayerState>;

    closed spec fn view(&self) -> Map<u64, PlayerState> {
        self.map@
    }
}

impl PlayerInputs {
    /// An empty log.
    pub fn new() -> (r: PlayerInputs)
        ensures
            r@ == Map::<u64, PlayerState>::empty(),
    {
        PlayerInputs { map: HashMap::new() }
    }

    /// Records `state` under `frame`, overwriting any earlier record
    /// of that frame.
    pub fn add_input(&mut self, frame: u64, state: PlayerState)
        ensures
            final(self)@ == old(self)@.insert(frame, state),
    {
        self.map.insert(frame, state);
    }

    /// Looks `frame` up; nothing is returned for a frame never
    /// recorded (or recorded before the last clear).
    pub fn get_input(&self, frame: u64) -> (r: Option<&PlayerState>)
        ensures
            match r {
                Some(s) => self@.contains_key(frame) && *s == self@[frame],
                None => !self@.contains_key(frame),
            },
    {
        self.map.get(&frame)
    }

    /// Forgets every record.
    pub fn clear(&mut self)
        ensures
            final(self)@ == Map::<u64, PlayerState>::empty(),
    {
        self.map.clear();
    }
}

/// The sparse checkpoint log: the player's absolute position, keyed by
/// frame, written only on frames that are multiples of the sync
/// interval.
pub struct SyncOffset {
    map: HashMap<u64, Pos>,
}

impl View for SyncOffset {
    type V = Map<u64, Pos>;

    closed spec fn view(&self) -> Map<u64, Pos> {
        self.map@
    }
}

impl SyncOffset {
    /// An empty checkpoint log.
    pub fn new() -> (r: SyncOffset)
        ensures
            r@ == Map::<u64, Pos>::empty(),
    {
        SyncOffset { map: HashMap::new() }
    }

    /// Records the position under `frame`, overwriting any earlier
    /// checkpoint of that frame.
    pub fn add_offset(&mut self, frame: u64, pos: Pos)
        ensures
            final(self)@ == old(self)@.insert(frame, pos),
    {
        self.map.insert(frame, pos);
    }

    /// Looks `frame` up; nothing is returned for a frame without a
    /// checkpoint.
    pub fn get_offset(&self, frame: u64) -> (r: Option<&Pos>)
        ensures
            match r {
                Some(p) => self@.contains_key(frame) && *p == self@[frame],
                None => !self@.contains_key(frame),
            },
    {
        self.map.get(&frame)
    }

    /// Forgets every checkpoint.
    pub fn clear(&mut self)
        ensures
            final(self)@ == Map::<u64, Pos>::empty(),
    {
        self.map.clear();
    }
}

/// A replay actor: its playback cursor (`age`, frames since spawn),
/// the state it currently shows, and its position.
#[derive(Clone, Copy, Debug, PartialEq, Eq, Structural)]
pub struct ReplayGhost {
    pub age: u64,
    pub state: PlayerState,
    pub pos: Pos,
}

/// The commands of the event protocol.
#[derive(Clone, Copy, Debug, PartialEq, Eq, Structural)]
pub enum GhostEvents {
    ClearTrail,
    ClearGhosts,
    SpawnGhost,
}

/// The mathematical state of a session: what every contract speaks of.
#[verifier::ext_equal]
pub struct SessionModel {
    pub frame: u64,
    pub syncframe: u64,
    pub inputs: Map<u64, PlayerState>,
    pub offsets: Map<u64, Pos>,
    pub ghosts: Seq<ReplayGhost>,
}

/// A session is well formed when its sync interval is positive and
/// every checkpoint sits on a sync frame.
pub open spec fn model_wf(m: SessionModel) -> bool {
    &&& m.syncframe > 0
    &&& forall|k: u64| m.offsets.contains_key(k) ==> #[trigger] (k % m.syncframe) == 0
}

/// The model of a freshly created session: the counter at zero, the
/// logs empty, no ghosts.
pub open spec fn spec_fresh(syncframe: u64) -> SessionModel {
    SessionModel {
        frame: 0,
        syncframe,
        inputs: Map::empty(),
        offsets: Map::empty(),
        ghosts: Seq::empty(),
    }
}

/// The whole replay state of one play session: the frame counter, the
/// two logs, and the live ghosts.
pub struct ReplaySession {
    frame: u64,
    syncframe: u64,
    inputs: PlayerInputs,
    offsets: SyncOffset,
    ghosts: Vec<ReplayGhost>,
}

impl View for ReplaySession {
    type V = SessionModel;

    closed spec fn view(&self) -> SessionModel {
        SessionModel {
            frame: self.frame,
            syncframe: self.syncframe,
            inputs: self.inputs@,
            offsets: self.offsets@,
            ghosts: self.ghosts@,
        }
    }
}

/// A ghost one tick older.
pub open spec fn spec_age_ghost(g: ReplayGhost) -> ReplayGhost {
    ReplayGhost { age: (g.age + 1) as u64, ..g }
}

/// What advancing the frame counter does: the counter and every
/// ghost's age grow by one; nothing else moves.
pub open spec fn spec_update_frame(m: SessionModel) -> SessionModel {
    SessionModel {
        frame: (m.frame + 1) as u64,
        ghosts: m.ghosts.map_values(|g: ReplayGhost| spec_age_ghost(g)),
        ..m
    }
}

/// What recording the player's state does: the log gains (or
/// overwrites) the entry for the current frame.
pub open spec fn spec_save_state(m: SessionModel, state: PlayerState) -> SessionModel {
    SessionModel { inputs: m.inputs.insert(m.frame, state), ..m }
}

/// What recording the player's position does: on a sync frame the
/// checkpoint log gains the entry for the current frame; on any other
/// frame nothing happens.
pub open spec fn spec_save_offset(m: SessionModel, pos: Pos) -> SessionModel {
    if m.frame % m.syncframe == 0 {
        SessionModel { offsets: m.offsets.insert(m.frame, pos), ..m }
    } else {
        m
    }
}

/// What one playback step does to one ghost: the log entry at its age
/// drives it; a missing entry leaves it holding its last state.
pub open spec fn spec_play_ghost(inputs: Map<u64, PlayerState>, g: ReplayGhost) -> ReplayGhost {
    if inputs.contains_key(g.age) {
        ReplayGhost { state: inputs[g.age], ..g }
    } else {
        g
    }
}

/// What the playback system does: every ghost reads the log at its age.
pub open spec fn spec_update_ghost(m: SessionModel) -> SessionModel {
    SessionModel {
        ghosts: m.ghosts.map_values(|g: ReplayGhost| spec_play_ghost(m.inputs, g)),
        ..m
    }
}

/// Whether a ghost of this age is due for drift correction: every
/// sync frame after its spawn frame.
pub open spec fn drift_due(age: u64, syncframe: u64) -> bool {
    age != 0 && age % syncframe == 0
}

/// What drift correction does to one ghost: when due and a checkpoint
/// for its age exists, its position snaps to the checkpoint; otherwise
/// it is left alone.
pub open spec fn spec_drift_ghost(offsets: Map<u64, Pos>, syncframe: u64, g: ReplayGhost) -> ReplayGhost {
    if drift_due(g.age, syncframe) && offsets.contains_key(g.age) {
        ReplayGhost { pos: offsets[g.age], ..g }
    } else {
        g
    }
}

/// What the drift corrector does: every due ghost with a checkpoint
/// snaps to it.
pub open spec fn spec_drift_correct(m: SessionModel) -> SessionModel {
    SessionModel {
        ghosts: m.ghosts.map_values(|g: ReplayGhost| spec_drift_ghost(m.offsets, m.syncframe, g)),
        ..m
    }
}

/// The ages of the ghosts that were due for correction but found no
/// checkpoint, in ghost order: the non-fatal error report of a drift
/// pass.
pub open spec fn spec_drift_missed(
    ghosts: Seq<ReplayGhost>,
    offsets: Map<u64, Pos>,
    syncframe: u64,
) -> Seq<u64>
    decreases ghosts.len(),
{
    if ghosts.len() == 0 {
        Seq::empty()
    } else {
        let rest = spec_drift_missed(ghosts.drop_last(), offsets, syncframe);
        if drift_due(ghosts.last().age, syncframe) && !offsets.contains_key(ghosts.last().age) {
            rest.push(ghosts.last().age)
        } else {
            rest
        }
    }
}

/// What `ClearTrail` does: the counter is put back to 1 and both logs
/// are emptied; ghosts are not touched.
pub open spec fn spec_clear_trail(m: SessionModel) -> SessionModel {
    SessionModel { frame: 1, inputs: Map::empty(), offsets: Map::empty(), ..m }
}

/// What `ClearGhosts` does: every live ghost is despawned.
pub open spec fn spec_clear_ghosts(m: SessionModel) -> SessionModel {
    SessionModel { ghosts: Seq::empty(), ..m }
}

/// What `SpawnGhost` does: with a template at hand a new ghost joins
/// at age 0 and the origin; without one the spawn is aborted and
/// nothing changes.
pub open spec fn spec_spawn_ghost(m: SessionModel, template: Option<PlayerState>) -> SessionModel {
    match template {
        Some(t) => SessionModel {
            ghosts: m.ghosts.push(ReplayGhost { age: 0, state: t, pos: Pos { x: 0, y: 0, z: 0 } }),
            ..m
        },
        None => m,
    }
}

/// What one event of the protocol does to the session.
pub open spec fn spec_handle_event(
    m: SessionModel,
    event: GhostEvents,
    template: Option<PlayerState>,
) -> SessionModel {
    match event {
        GhostEvents::ClearTrail => spec_clear_trail(m),
        GhostEvents::ClearGhosts => spec_clear_ghosts(m),
        GhostEvents::SpawnGhost => spec_spawn_ghost(m, template),
    }
}

/// One whole simulation tick: the counter advances, the ghosts play
/// the log and are drift-corrected, and the player's state — and on a
/// sync frame its position — is recorded last.
pub open spec fn spec_tick(m: SessionModel, state: PlayerState, pos: Pos) -> SessionModel {
    spec_save_offset(
        spec_save_state(spec_drift_correct(spec_update_ghost(spec_update_frame(m))), state),
        pos,
    )
}

/// The events the debug key bindings raise this tick: the spawn key
/// queues a ghost spawn; the reset key queues `ClearGhosts` then
/// `ClearTrail`.
pub open spec fn spec_test_ghost(spawn_just_pressed: bool, reset_just_pressed: bool) -> Seq<
    GhostEvents,
> {
    let spawn = if spawn_just_pressed {
        seq![GhostEvents::SpawnGhost]
    } else {
        Seq::<GhostEvents>::empty()
    };
    let reset = if reset_just_pressed {
        seq![GhostEvents::ClearGhosts, GhostEvents::ClearTrail]
    } else {
        Seq::<GhostEvents>::empty()
    };
    spawn + reset
}

/// Turns the debug key bindings into protocol events.
pub fn test_ghost(spawn_just_pressed: bool, reset_just_pressed: bool) -> (events: Vec<GhostEvents>)
    ensures
        events@ == spec_test_ghost(spawn_just_pressed, reset_just_pressed),
{
    let mut events: Vec<GhostEvents> = Vec::new();
    if spawn_just_pressed {
        events.push(GhostEvents::SpawnGhost);
    }
    if reset_just_pressed {
        events.push(GhostEvents::ClearGhosts);
        events.push(GhostEvents::ClearTrail);
    }
    proof {
        assert(events@ =~= spec_test_ghost(spawn_just_pressed, reset_just_pressed));
    }
    events
}

/// How many of a queue's events a session fully applies: all of them,
/// except spawns that find no template.
pub open spec fn spec_events_applied(events: Seq<GhostEvents>, template: Option<PlayerState>) -> int
    decreases events.len(),
{
    if events.len() == 0 {
        0
    } else {
        spec_events_applied(events.drop_last(), template) + if events.last()
            == GhostEvents::SpawnGhost && template is None {
            0int
        } else {
            1int
        }
    }
}

/// The session after a queue of events, applied in delivery order.
pub open spec fn spec_process_events(
    m: SessionModel,
    events: Seq<GhostEvents>,
    template: Option<PlayerState>,
) -> SessionModel
    decreases events.len(),
{
    if events.len() == 0 {
        m
    } else {
        spec_handle_event(spec_process_events(m, events.drop_last(), template), events.last(), template)
    }
}

impl ReplaySession {
    /// Well-formedness of the session's replay state.
    pub open spec fn wf(&self) -> bool {
        model_wf(self@)
    }

    /// A fresh session recording checkpoints every `syncframe` frames.
    pub fn new(syncframe: u64) -> (r: ReplaySession)
        requires
            syncframe > 0,
        ensures
            r@ == spec_fresh(syncframe),
            r.wf(),
    {
        let r = ReplaySession {
            frame: 0,
            syncframe,
            inputs: PlayerInputs::new(),
            offsets: SyncOffset::new(),
            ghosts: Vec::new(),
        };
        proof {
            assert(r@ =~= spec_fresh(syncframe));
        }
        r
    }

    /// The frame counter's current reading.
    pub fn frame(&self) -> (r: u64)
        ensures
            r == self@.frame,
    {
        self.frame
    }

    /// The checkpoint interval this session was created with.
    pub fn syncframe(&self) -> (r: u64)
        ensures
            r == self@.syncframe,
    {
        self.syncframe
    }

    /// How many ghosts are live.
    pub fn ghost_count(&self) -> (r: usize)
        ensures
            r == self@.ghosts.len(),
    {
        self.ghosts.len()
    }

    /// The ghost at `i`.
    pub fn ghost_at(&self, i: usize) -> (r: ReplayGhost)
        requires
            i < self@.ghosts.len(),
        ensures
            r == self@.ghosts[i as int],
    {
        self.ghosts[i]
    }

    /// Looks a frame up in the input/state log.
    pub fn lookup_input(&self, frame: u64) -> (r: Option<&PlayerState>)
        ensures
            match r {
                Some(s) => self@.inputs.contains_key(frame) && *s == self@.inputs[frame],
                None => !self@.inputs.contains_key(frame),
            },
    {
        self.inputs.get_input(frame)
    }

    /// Looks a frame up in the checkpoint log.
    pub fn lookup_offset(&self, frame: u64) -> (r: Option<&Pos>)
        ensures
            match r {
                Some(p) => self@.offsets.contains_key(frame) && *p == self@.offsets[frame],
                None => !self@.offsets.contains_key(frame),
            },
    {
        self.offsets.get_offset(frame)
    }

    /// Advances the frame counter and every ghost's age by one. Runs
    /// first in the tick.
    pub fn update_frame(&mut self)
        requires
            old(self)@.frame < u64::MAX,
            forall|i: int|
                0 <= i < old(self)@.ghosts.len() ==> #[trigger] old(self)@.ghosts[i].age
                    < u64::MAX,
        ensures
            final(self)@ == spec_update_frame(old(self)@),
    {
        let ghost orig = self.ghosts@;
        let n = self.ghosts.len();
        proof {
            assert forall|j: int| 0 <= j < n implies #[trigger] orig[j].age < u64::MAX by {
                assert(old(self)@.ghosts[j].age < u64::MAX);
            }
        }
        let mut i: usize = 0;
        while i < n
            invariant
                n == self.ghosts.len(),
                i <= n,
                orig.len() == n,
                forall|j: int| 0 <= j < n ==> #[trigger] orig[j].age < u64::MAX,
                forall|j: int| 0 <= j < i ==> self.ghosts@[j] == spec_age_ghost(orig[j]),
                forall|j: int| i <= j < n ==> self.ghosts@[j] == orig[j],
                self.frame == old(self).frame,
                self.syncframe == old(self).syncframe,
                self.inputs@ == old(self).inputs@,
                self.offsets@ == old(self).offsets@,
            decreases n - i,
        {
            let g = self.ghosts[i];
            self.ghosts.set(i, ReplayGhost { age: g.age + 1, ..g });
            i = i + 1;
        }
        self.frame = self.frame + 1;
        proof {
            assert(self.ghosts@ =~= orig.map_values(|g: ReplayGhost| spec_age_ghost(g)));
            assert(self@ =~= spec_update_frame(old(self)@));
        }
    }

    /// Records the player's state under the current frame. Runs in the
    /// tick's last phase, after the player's own update.
    pub fn save_player_state(&mut self, state: PlayerState)
        ensures
            final(self)@ == spec_save_state(old(self)@, state),
    {
        let frame = self.frame;
        self.inputs.add_input(frame, state);
        proof {
            assert(self@ =~= spec_save_state(old(self)@, state));
        }
    }

    /// Records the player's position under the current frame if this
    /// is a sync frame; otherwise does nothing. Runs in the tick's
    /// last phase.
    pub fn save_player_offset(&mut self, pos: Pos)
        requires
            old(self).wf(),
        ensures
            final(self)@ == spec_save_offset(old(self)@, pos),
            final(self).wf(),
    {
        if self.frame % self.syncframe == 0 {
            let frame = self.frame;
            self.offsets.add_offset(frame, pos);
        }
        proof {
            assert(self@ =~= spec_save_offset(old(self)@, pos));
        }
    }

    /// Drives every ghost from the input/state log: the entry at its
    /// age, when there is one, replaces its visible state; a miss is
    /// no error — the ghost holds what it last showed.
    pub fn update_ghost(&mut self)
        ensures
            final(self)@ == spec_update_ghost(old(self)@),
    {
        let ghost orig = self.ghosts@;
        let n = self.ghosts.len();
        let mut i: usize = 0;
        while i < n
            invariant
                n == self.ghosts.len(),
                i <= n,
                orig.len() == n,
                forall|j: int|
                    0 <= j < i ==> self.ghosts@[j] == spec_play_ghost(old(self).inputs@, orig[j]),
                forall|j: int| i <= j < n ==> self.ghosts@[j] == orig[j],
                self.frame == old(self).frame,
                self.syncframe == old(self).syncframe,
                self.inputs@ == old(self).inputs@,
                self.offsets@ == old(self).offsets@,
            decreases n - i,
        {
            let g = self.ghosts[i];
            match self.inputs.get_input(g.age) {
                Some(s) => {
                    let st = *s;
                    self.ghosts.set(i, ReplayGhost { state: st, ..g });
                },
                None => {},
            }
            i = i + 1;
        }
        proof {
            assert(self.ghosts@ =~= orig.map_values(
                |g: ReplayGhost| spec_play_ghost(old(self).inputs@, g),
            ));
            assert(self@ =~= spec_update_ghost(old(self)@));
        }
    }

    /// Snaps every due ghost to its checkpoint. A ghost due on a frame
    /// without a checkpoint is skipped and its age is reported back —
    /// the unexpected, non-fatal error of the protocol, for the caller
    /// to log.
    pub fn drift_correct(&mut self) -> (missed: Vec<u64>)
        requires
            old(self).wf(),
        ensures
            final(self)@ == spec_drift_correct(old(self)@),
            final(self).wf(),
            missed@ == spec_drift_missed(old(self)@.ghosts, old(self)@.offsets, old(self)@.syncframe),
    {
        let ghost orig = self.ghosts@;
        let mut missed: Vec<u64> = Vec::new();
        let n = self.ghosts.len();
        let mut i: usize = 0;
        while i < n
            invariant
                n == self.ghosts.len(),
                i <= n,
                orig.len() == n,
                self.syncframe > 0,
                forall|j: int|
                    0 <= j < i ==> self.ghosts@[j] == spec_drift_ghost(
                        old(self).offsets@,
                        old(self).syncframe,
                        orig[j],
                    ),
                forall|j: int| i <= j < n ==> self.ghosts@[j] == orig[j],
                missed@ == spec_drift_missed(
                    orig.take(i as int),
                    old(self).offsets@,
                    old(self).syncframe,
                ),
                self.frame == old(self).frame,
                self.syncframe == old(self).syncframe,
                self.inputs@ == old(self).inputs@,
                self.offsets@ == old(self).offsets@,
            decreases n - i,
        {
            let g = self.ghosts[i];
            proof {
                assert(orig.take(i + 1).drop_last() =~= orig.take(i as int));
                assert(orig.take(i + 1).last() == orig[i as int]);
            }
            if g.age % self.syncframe == 0 && g.age != 0 {
                match self.offsets.get_offset(g.age) {
                    Some(p) => {
                        let snap = *p;
                        self.ghosts.set(i, ReplayGhost { pos: snap, ..g });
                    },
                    None => {
                        missed.push(g.age);
                    },
                }
            }
            i = i + 1;
        }
        proof {
            assert(orig.take(n as int) =~= orig);
            assert(self.ghosts@ =~= orig.map_values(
                |g: ReplayGhost| spec_drift_ghost(old(self).offsets@, old(self).syncframe, g),
            ));
            assert(self@ =~= spec_drift_correct(old(self)@));
        }
        missed
    }

    /// Applies one event of the protocol. A `SpawnGhost` without a
    /// cosmetic/physical template is aborted — no partial ghost is
    /// created — and reported by the result; every other case returns
    /// true.
    pub fn handle_ghost_event(&mut self, event: GhostEvents, template: Option<PlayerState>) -> (ok:
        bool)
        requires
            old(self).wf(),
        ensures
            final(self)@ == spec_handle_event(old(self)@, event, template),
            final(self).wf(),
            ok == !(event == GhostEvents::SpawnGhost && template is None),
    {
        match event {
            GhostEvents::ClearTrail => {
                self.frame = 1;
                self.inputs.clear();
                self.offsets.clear();
                proof {
                    assert(self@ =~= spec_clear_trail(old(self)@));
                }
                true
            },
            GhostEvents::ClearGhosts => {
                self.ghosts.clear();
                proof {
                    assert(self@ =~= spec_clear_ghosts(old(self)@));
                }
                true
            },
            GhostEvents::SpawnGhost => {
                match template {
                    Some(t) => {
                        self.ghosts.push(ReplayGhost { age: 0, state: t, pos: Pos::origin() });
                        proof {
                            assert(self@ =~= spec_spawn_ghost(old(self)@, template));
                        }
                        true
                    },
                    None => false,
                }
            },
        }
    }

    /// The reset on being caught: when the player's collider contacts
    /// a ghost's, the score is cleared, every ghost is despawned, the
    /// trail is cleared, and the player is put back at the origin with
    /// no velocity. Without a contact nothing changes.
    pub fn kill_player(
        &mut self,
        score: &mut Score,
        player_pos: &mut Pos,
        player_vel: &mut Vel,
        contact_with_ghost: bool,
    )
        requires
            old(self).wf(),
        ensures
            final(self).wf(),
            contact_with_ghost ==> {
                &&& final(self)@ == spec_clear_ghosts(spec_clear_trail(old(self)@))
                &&& final(score).0 == 0
                &&& *final(player_pos) == (Pos { x: 0, y: 0, z: 0 })
                &&& *final(player_vel) == (Vel { x: 0, y: 0 })
            },
            !contact_with_ghost ==> {
                &&& final(self)@ == old(self)@
                &&& *final(score) == *old(score)
                &&& *final(player_pos) == *old(player_pos)
                &&& *final(player_vel) == *old(player_vel)
            },
    {
        if contact_with_ghost {
            score.0 = 0;
            self.handle_ghost_event(GhostEvents::ClearTrail, None);
            self.handle_ghost_event(GhostEvents::ClearGhosts, None);
            *player_pos = Pos::origin();
            *player_vel = Vel::zero();
            proof {
                assert(self@ =~= spec_clear_ghosts(spec_clear_trail(old(self)@)));
            }
        }
    }

    /// Runs one whole simulation tick in the engine's phase order:
    /// counter first, ghost playback and drift correction in the
    /// middle, recording of the player's state and position last.
    /// Returns the drift corrector's report of due frames without a
    /// checkpoint.
    pub fn tick(&mut self, state: PlayerState, pos: Pos) -> (missed: Vec<u64>)
        requires
            old(self).wf(),
            old(self)@.frame < u64::MAX,
            forall|i: int|
                0 <= i < old(self)@.ghosts.len() ==> #[trigger] old(self)@.ghosts[i].age
                    < u64::MAX,
        ensures
            final(self)@ == spec_tick(old(self)@, state, pos),
            final(self).wf(),
            missed@ == spec_drift_missed(
                spec_update_ghost(spec_update_frame(old(self)@)).ghosts,
                old(self)@.offsets,
                old(self)@.syncframe,
            ),
    {
        self.update_frame();
        self.update_ghost();
        let missed = self.drift_correct();
        self.save_player_state(state);
        self.save_player_offset(pos);
        missed
    }

    /// Applies a tick's event queue in delivery order, FIFO, with no
    /// reordering. Returns how many events were fully applied (a spawn
    /// without a template is aborted and not counted).
    pub fn process_events(&mut self, events: &Vec<GhostEvents>, template: Option<PlayerState>) -> (applied: usize)
        requires
            old(self).wf(),
        ensures
            final(self)@ == spec_process_events(old(self)@, events@, template),
            final(self).wf(),
            applied == spec_events_applied(events@, template),
    {
        let n = events.len();
        let mut applied: usize = 0;
        let mut i: usize = 0;
        while i < n
            invariant
                n == events@.len(),
                i <= n,
                applied <= i,
                applied == spec_events_applied(events@.take(i as int), template),
                self.wf(),
                self@ == spec_process_events(old(self)@, events@.take(i as int), template),
            decreases n - i,
        {
            proof {
                assert(events@.take(i + 1).drop_last() =~= events@.take(i as int));
                assert(events@.take(i + 1).last() == events@[i as int]);
            }
            let ok = self.handle_ghost_event(events[i], template);
            if ok {
                applied = applied + 1;
            }
            i = i + 1;
        }
        proof {
            assert(events@.take(n as int) =~= events@);
        }
        applied
    }
}

/// The session after the ticks of a whole trajectory of player
/// observations, oldest first.
pub open spec fn spec_run(m: SessionModel, traj: Seq<(PlayerState, Pos)>) -> SessionModel
    decreases traj.len(),
{
    if traj.len() == 0 {
        m
    } else {
        spec_tick(spec_run(m, traj.drop_last()), traj.last().0, traj.last().1)
    }
}

/// Law: recording the same frame twice keeps only the latest value.
/// The first record is fully overwritten, and the log then maps that
/// frame to the second value.
pub proof fn lemma_record_idempotent_overwrite(m: SessionModel, a: PlayerState, b: PlayerState)
    ensures
        spec_save_state(spec_save_state(m, a), b) == spec_save_state(m, b),
        spec_save_state(spec_save_state(m, a), b).inputs[m.frame] == b,
{
    assert(spec_save_state(spec_save_state(m, a), b).inputs =~= spec_save_state(m, b).inputs);
    assert(spec_save_state(spec_save_state(m, a), b) =~= spec_save_state(m, b));
}

/// One tick leaves every ghost in place and ages it by exactly one;
/// nothing a tick does depends on the ghost's spawn frame.
pub proof fn lemma_tick_age(m: SessionModel, state: PlayerState, pos: Pos, i: int)
    requires
        0 <= i < m.ghosts.len(),
        m.ghosts[i].age < u64::MAX,
    ensures
        spec_tick(m, state, pos).ghosts.len() == m.ghosts.len(),
        spec_tick(m, state, pos).ghosts[i].age == m.ghosts[i].age + 1,
{
}

/// Law: a ghost's age counts its own ticks. For a ghost spawned at any
/// global frame, after the ticks of a trajectory its age has grown by
/// exactly the trajectory's length — the age is relative to the spawn,
/// not to the global counter.
pub proof fn lemma_monotonic_age(m: SessionModel, traj: Seq<(PlayerState, Pos)>, i: int)
    requires
        0 <= i < m.ghosts.len(),
        m.ghosts[i].age + traj.len() <= u64::MAX,
    ensures
        spec_run(m, traj).ghosts.len() == m.ghosts.len(),
        spec_run(m, traj).ghosts[i].age == m.ghosts[i].age + traj.len(),
    decreases traj.len(),
{
    if traj.len() > 0 {
        lemma_monotonic_age(m, traj.drop_last(), i);
        lemma_tick_age(spec_run(m, traj.drop_last()), traj.last().0, traj.last().1, i);
    }
}

/// Law: a lookup miss holds the last state. When the input/state log
/// has no entry at the age a ghost reaches on a tick, the ghost's
/// visible state after the tick is exactly its state before it.
pub proof fn lemma_hold_on_miss(m: SessionModel, state: PlayerState, pos: Pos, i: int)
    requires
        0 <= i < m.ghosts.len(),
        m.ghosts[i].age < u64::MAX,
        !m.inputs.contains_key((m.ghosts[i].age + 1) as u64),
    ensures
        spec_tick(m, state, pos).ghosts[i].state == m.ghosts[i].state,
{
}

/// Law, the sparseness direction of checkpoint periodicity: a
/// well-formed session holds checkpoints only at multiples of the sync
/// interval, never at any other frame.
pub proof fn lemma_checkpoints_only_on_sync_frames(m: SessionModel, k: u64)
    requires
        model_wf(m),
        m.offsets.contains_key(k),
    ensures
        k % m.syncframe == 0,
{
}

/// Running any trajectory preserves full checkpoint coverage: if a
/// session holds a checkpoint exactly at every sync multiple up to its
/// frame, it still does after the ticks of the trajectory.
pub proof fn lemma_run_checkpoint_coverage(m: SessionModel, traj: Seq<(PlayerState, Pos)>)
    requires
        m.syncframe > 0,
        m.frame + traj.len() <= u64::MAX,
        forall|k: u64| #[trigger] m.offsets.contains_key(k) <==> (k % m.syncframe == 0 && k
            <= m.frame),
    ensures
        spec_run(m, traj).frame == m.frame + traj.len(),
        spec_run(m, traj).syncframe == m.syncframe,
        forall|k: u64| #[trigger] spec_run(m, traj).offsets.contains_key(k) <==> (k % m.syncframe
            == 0 && k <= m.frame + traj.len()),
    decreases traj.len(),
{
    if traj.len() > 0 {
        lemma_run_checkpoint_coverage(m, traj.drop_last());
        let m1 = spec_run(m, traj.drop_last());
        let m2 = spec_run(m, traj);
        assert forall|k: u64| #[trigger] m2.offsets.contains_key(k) <==> (k % m.syncframe == 0 && k
            <= m.frame + traj.len()) by {
            assert(m1.offsets.contains_key(k) <==> (k % m.syncframe == 0 && k <= m.frame
                + traj.len() - 1));
        }
    }
}

/// Law, both directions of checkpoint periodicity: a session that has
/// recorded from its creation — a checkpoint at frame 0, then one full
/// tick per frame — holds checkpoints exactly at the multiples of the
/// sync interval not beyond the current frame, and at no other frame.
pub proof fn lemma_checkpoint_periodicity(
    syncframe: u64,
    first_pos: Pos,
    traj: Seq<(PlayerState, Pos)>,
)
    requires
        syncframe > 0,
        traj.len() <= u64::MAX,
    ensures
        ({
            let mf = spec_run(spec_save_offset(spec_fresh(syncframe), first_pos), traj);
            &&& mf.frame == traj.len()
            &&& forall|k: u64| #[trigger] mf.offsets.contains_key(k) <==> (k % syncframe == 0 && k
                <= traj.len())
        }),
{
    let m0 = spec_save_offset(spec_fresh(syncframe), first_pos);
    assert(spec_fresh(syncframe).frame % syncframe == 0) by {
        assert(0u64 % syncframe == 0) by (nonlinear_arith)
            requires
                syncframe > 0,
        ;
    }
    assert(m0.offsets =~= Map::<u64, Pos>::empty().insert(0, first_pos));
    assert(forall|k: u64| #[trigger] m0.offsets.contains_key(k) <==> (k % syncframe == 0 && k
        <= 0));
    lemma_run_checkpoint_coverage(m0, traj);
}

/// Law: `ClearTrail` resets the origin. Afterwards the frame counter
/// reads 1, and a lookup of any frame — previously recorded or not —
/// returns nothing, in either log.
pub proof fn lemma_clear_resets_origin(m: SessionModel, template: Option<PlayerState>, f: u64)
    ensures
        spec_handle_event(m, GhostEvents::ClearTrail, template).frame == 1,
        !spec_handle_event(m, GhostEvents::ClearTrail, template).inputs.contains_key(f),
        !spec_handle_event(m, GhostEvents::ClearTrail, template).offsets.contains_key(f),
{
}

} // verus!
