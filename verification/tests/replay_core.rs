use ghost_replay::player::{Jump, Player, Vel};
use ghost_replay::replay::{
    test_ghost, GhostEvents, PlayerInputs, PlayerState, Pos, ReplaySession, Score, SyncOffset,
};

fn state(vx: i64, vy: i64) -> PlayerState {
    PlayerState {
        velocity: Vel { x: vx, y: vy },
        jump: Jump(false),
        skin: Player::Mask,
    }
}

fn pos(x: i64, y: i64, z: i64) -> Pos {
    Pos { x, y, z }
}

#[test]
fn idempotent_overwrite() {
    let mut log = PlayerInputs::new();
    let a = state(1, 0);
    let b = state(2, 0);
    log.add_input(5, a);
    log.add_input(5, b);
    assert_eq!(log.get_input(5), Some(&b));
}

#[test]
fn lookup_of_unrecorded_frame_is_none() {
    let mut log = PlayerInputs::new();
    log.add_input(3, state(1, 1));
    assert_eq!(log.get_input(2), None);
    assert_eq!(log.get_input(4), None);
    assert_eq!(log.get_input(3), Some(&state(1, 1)));
}

#[test]
fn offsets_overwrite_and_clear() {
    let mut log = SyncOffset::new();
    log.add_offset(10, pos(1, 2, 3));
    log.add_offset(10, pos(4, 5, 6));
    assert_eq!(log.get_offset(10), Some(&pos(4, 5, 6)));
    log.clear();
    assert_eq!(log.get_offset(10), None);
}

#[test]
fn monotonic_age_is_relative_to_spawn() {
    // Two sessions whose ghosts spawn at different global frames: after
    // the same number of ticks both ghosts have the same age.
    let mut early = ReplaySession::new(10);
    let mut late = ReplaySession::new(10);
    for _ in 0..7 {
        late.tick(state(0, 0), pos(0, 0, 0));
    }
    assert!(early.handle_ghost_event(GhostEvents::SpawnGhost, Some(state(0, 0))));
    assert!(late.handle_ghost_event(GhostEvents::SpawnGhost, Some(state(0, 0))));
    for _ in 0..5 {
        early.tick(state(0, 0), pos(0, 0, 0));
        late.tick(state(0, 0), pos(0, 0, 0));
    }
    assert_eq!(early.ghost_at(0).age, 5);
    assert_eq!(late.ghost_at(0).age, 5);
    assert_ne!(early.frame(), late.frame());
}

#[test]
fn hold_on_miss_keeps_visible_state() {
    let mut s = ReplaySession::new(10);
    // Record frames 1 and 2, then spawn a ghost: it replays them and
    // then runs out of log.
    s.tick(state(11, 0), pos(0, 0, 0));
    s.tick(state(22, 0), pos(0, 0, 0));
    assert!(s.handle_ghost_event(
        GhostEvents::SpawnGhost,
        Some(state(99, 99))
    ));
    s.update_frame();
    s.update_ghost();
    assert_eq!(s.ghost_at(0).state, state(11, 0));
    s.update_frame();
    s.update_ghost();
    assert_eq!(s.ghost_at(0).state, state(22, 0));
    // Age 3 was never recorded, so the ghost holds what it last showed.
    s.update_frame();
    s.update_ghost();
    assert_eq!(s.ghost_at(0).state, state(22, 0));
    assert_eq!(s.ghost_at(0).age, 3);
}

#[test]
fn checkpoint_periodicity() {
    let mut s = ReplaySession::new(3);
    // A checkpoint at frame 0, then one full tick per frame.
    s.save_player_offset(pos(0, 0, 0));
    for f in 1..=7i64 {
        s.tick(state(0, 0), pos(f, f, f));
    }
    for f in 0..=7u64 {
        let have = s.lookup_offset(f).is_some();
        assert_eq!(have, f % 3 == 0, "frame {}", f);
    }
    assert_eq!(s.lookup_offset(3), Some(&pos(3, 3, 3)));
    assert_eq!(s.lookup_offset(6), Some(&pos(6, 6, 6)));
}

#[test]
fn clear_trail_resets_origin() {
    let mut s = ReplaySession::new(10);
    for f in 1..=12i64 {
        s.tick(state(f, f), pos(f, 0, 0));
    }
    assert_eq!(s.frame(), 12);
    assert!(s.lookup_input(5).is_some());
    assert!(s.lookup_offset(10).is_some());
    assert!(s.handle_ghost_event(GhostEvents::ClearTrail, None));
    assert_eq!(s.frame(), 1);
    for f in 0..=12u64 {
        assert!(s.lookup_input(f).is_none());
        assert!(s.lookup_offset(f).is_none());
    }
}

#[test]
fn clear_ghosts_despawns_all() {
    let mut s = ReplaySession::new(10);
    s.handle_ghost_event(GhostEvents::SpawnGhost, Some(state(0, 0)));
    s.handle_ghost_event(GhostEvents::SpawnGhost, Some(state(1, 1)));
    assert_eq!(s.ghost_count(), 2);
    assert!(s.handle_ghost_event(GhostEvents::ClearGhosts, None));
    assert_eq!(s.ghost_count(), 0);
}

#[test]
fn spawn_without_template_is_aborted() {
    let mut s = ReplaySession::new(10);
    assert!(!s.handle_ghost_event(GhostEvents::SpawnGhost, None));
    assert_eq!(s.ghost_count(), 0);
}

#[test]
fn spawned_ghost_starts_at_origin_with_age_zero() {
    let mut s = ReplaySession::new(10);
    s.handle_ghost_event(GhostEvents::SpawnGhost, Some(state(7, 8)));
    let g = s.ghost_at(0);
    assert_eq!(g.age, 0);
    assert_eq!(g.state, state(7, 8));
    assert_eq!(g.pos, pos(0, 0, 0));
}

#[test]
fn collision_reset_scenario() {
    let mut s = ReplaySession::new(10);
    let mut score = Score(0);
    for f in 1..=15i64 {
        s.tick(state(f, 0), pos(f, 0, 0));
    }
    s.handle_ghost_event(GhostEvents::SpawnGhost, Some(state(0, 0)));
    s.handle_ghost_event(GhostEvents::SpawnGhost, Some(state(0, 0)));
    score.0 = 4;
    let mut player_pos = pos(40, 2, 0);
    let mut player_vel = Vel { x: 9, y: 9 };

    // No contact: nothing changes.
    s.kill_player(&mut score, &mut player_pos, &mut player_vel, false);
    assert_eq!(score.0, 4);
    assert_eq!(s.ghost_count(), 2);

    // Contact with a ghost: the whole session resets.
    s.kill_player(&mut score, &mut player_pos, &mut player_vel, true);
    assert_eq!(score.0, 0);
    assert_eq!(s.ghost_count(), 0);
    assert_eq!(s.frame(), 1);
    for f in 0..=15u64 {
        assert!(s.lookup_input(f).is_none());
        assert!(s.lookup_offset(f).is_none());
    }
    assert_eq!(player_pos, pos(0, 0, 0));
    assert_eq!(player_vel, Vel { x: 0, y: 0 });
}

#[test]
fn events_are_processed_in_delivery_order() {
    let mut s = ReplaySession::new(10);
    let spawn_then_clear = vec![GhostEvents::SpawnGhost, GhostEvents::ClearGhosts];
    let applied = s.process_events(&spawn_then_clear, Some(state(0, 0)));
    assert_eq!(applied, 2);
    assert_eq!(s.ghost_count(), 0);

    let clear_then_spawn = vec![GhostEvents::ClearGhosts, GhostEvents::SpawnGhost];
    let applied = s.process_events(&clear_then_spawn, Some(state(0, 0)));
    assert_eq!(applied, 2);
    assert_eq!(s.ghost_count(), 1);
}

#[test]
fn aborted_spawns_are_not_counted_as_applied() {
    let mut s = ReplaySession::new(10);
    let queue = vec![
        GhostEvents::SpawnGhost,
        GhostEvents::ClearTrail,
        GhostEvents::SpawnGhost,
    ];
    let applied = s.process_events(&queue, None);
    assert_eq!(applied, 1);
    assert_eq!(s.ghost_count(), 0);
    assert_eq!(s.frame(), 1);
}

#[test]
fn debug_bindings_raise_events() {
    assert_eq!(test_ghost(false, false), vec![]);
    assert_eq!(test_ghost(true, false), vec![GhostEvents::SpawnGhost]);
    assert_eq!(
        test_ghost(false, true),
        vec![GhostEvents::ClearGhosts, GhostEvents::ClearTrail]
    );
    assert_eq!(
        test_ghost(true, true),
        vec![
            GhostEvents::SpawnGhost,
            GhostEvents::ClearGhosts,
            GhostEvents::ClearTrail
        ]
    );
}
