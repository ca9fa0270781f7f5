//! Collectables: what picking one up does to the session, and where
//! the next one appears. Spawn points live on the level's integer tile
//! grid; the physics-side intersection test and the entity bookkeeping
//! stay with the engine.

use vstd::prelude::*;

use crate::animation::Animation;
use crate::replay::{GhostEvents, PlayerState, ReplaySession, Score, spec_spawn_ghost};
use crate::rng::{gen_index, gen_range_i32};

verus! {

/// The kinds of collectable fruit.
#[derive(Clone, Copy, Debug, PartialEq, Eq, Structural)]
pub enum CollectableType {
    Strawberry,
    Bananan,
}

/// The animation a collectable is rendered with.
pub open spec fn spec_collectable_animation(c: CollectableType) -> Animation {
    match c {
        CollectableType::Strawberry => Animation::Strawberry,
        CollectableType::Bananan => Animation::Bananas,
    }
}

impl CollectableType {
    /// The animation this collectable is rendered with.
    pub fn animation(self) -> (r: Animation)
        ensures
            r == spec_collectable_animation(self),
    {
        match self {
            CollectableType::Strawberry => Animation::Strawberry,
            CollectableType::Bananan => Animation::Bananas,
        }
    }
}

/// A cell of the level's tile grid.
#[derive(Clone, Copy, Debug, PartialEq, Eq, Structural)]
pub struct GridPos {
    pub x: i32,
    pub y: i32,
}

/// Where a collectable reappears after being picked up.
#[derive(Debug)]
pub enum SpawnType {
    /// It does not reappear.
    NoSpawn,
    /// A free cell drawn from the rectangle between the two corners.
    RandomRange(GridPos, GridPos),
    /// A cell drawn from a fixed list; the list is kept.
    RandomPoints(Vec<GridPos>),
    /// A single fixed cell, used once.
    Fixed(GridPos),
    /// The cells of a list in turn, cycling, with the cursor kept.
    Order(Vec<GridPos>, usize),
    /// The cells of a list from the back, each used once.
    OrderDec(Vec<GridPos>),
    /// Cells drawn from a list, each used once.
    RandomPointsDec(Vec<GridPos>),
}

/// How many draws a random-range spawn makes before giving up.
pub const MAX_RNG_TRYS: usize = 50;

/// The smaller of two grid coordinates.
pub open spec fn grid_min(a: i32, b: i32) -> int {
    if a <= b {
        a as int
    } else {
        b as int
    }
}

/// The larger of two grid coordinates.
pub open spec fn grid_max(a: i32, b: i32) -> int {
    if a <= b {
        b as int
    } else {
        a as int
    }
}

/// Whether `p` lies in the half-open rectangle spanned by the corners
/// `a` and `b` (the larger coordinate on each axis is excluded).
pub open spec fn in_grid_range(p: GridPos, a: GridPos, b: GridPos) -> bool {
    &&& grid_min(a.x, b.x) <= p.x < grid_max(a.x, b.x)
    &&& grid_min(a.y, b.y) <= p.y < grid_max(a.y, b.y)
}

/// What one spawn resolution may leave behind: how the result and the
/// successor spawn rule relate to the rule before. Where a random draw
/// decides, every admissible outcome satisfies this relation.
pub open spec fn next_spawn_rel(
    before: SpawnType,
    occupied: Seq<GridPos>,
    r: Option<GridPos>,
    after: SpawnType,
) -> bool {
    match before {
        SpawnType::NoSpawn => r is None && after is NoSpawn,
        SpawnType::RandomRange(a, b) => {
            &&& (after matches SpawnType::RandomRange(a2, b2) && a2 == a && b2 == b)
            &&& match r {
                Some(p) => in_grid_range(p, a, b) && !occupied.contains(p),
                None => true,
            }
        },
        SpawnType::RandomPoints(pts) => {
            &&& (after matches SpawnType::RandomPoints(l2) && l2@ == pts@)
            &&& if pts@.len() == 0 {
                r is None
            } else {
                exists|i: int| 0 <= i < pts@.len() && r == Some(pts@[i])
            }
        },
        SpawnType::Fixed(p) => r == Some(p) && after is NoSpawn,
        SpawnType::Order(list, idx) => {
            if list@.len() == 0 {
                r is None && (after matches SpawnType::Order(l2, i2) && l2@ == list@ && i2 == idx)
            } else {
                let ni = ((idx + 1) % list@.len() as int) as usize;
                &&& r == Some(list@[ni as int])
                &&& (after matches SpawnType::Order(l2, i2) && l2@ == list@ && i2 == ni)
            }
        },
        SpawnType::OrderDec(list) => {
            if list@.len() == 0 {
                r is None && (after matches SpawnType::OrderDec(l2) && l2@ == list@)
            } else {
                &&& r == Some(list@.last())
                &&& if list@.len() == 1 {
                    after is NoSpawn
                } else {
                    after matches SpawnType::OrderDec(l2) && l2@ == list@.drop_last()
                }
            }
        },
        SpawnType::RandomPointsDec(pts) => {
            if pts@.len() == 0 {
                r is None && (after matches SpawnType::RandomPointsDec(l2) && l2@ == pts@)
            } else {
                exists|i: int|
                    {
                        &&& 0 <= i < pts@.len()
                        &&& r == Some(pts@[i])
                        &&& if pts@.len() == 1 {
                            after is NoSpawn
                        } else {
                            after matches SpawnType::RandomPointsDec(l2) && l2@ == pts@.remove(i)
                        }
                    }
            }
        },
    }
}

/// Whether the grid cell `p` is among the occupied ones.
fn contains_grid_pos(occupied: &Vec<GridPos>, p: GridPos) -> (r: bool)
    ensures
        r == occupied@.contains(p),
{
    let n = occupied.len();
    let mut i: usize = 0;
    while i < n
        invariant
            n == occupied@.len(),
            i <= n,
            forall|j: int| 0 <= j < i ==> occupied@[j] != p,
        decreases n - i,
    {
        if occupied[i] == p {
            return true;
        }
        i = i + 1;
    }
    false
}

impl SpawnType {
    /// Resolves where the next collectable appears, and what rule the
    /// respawned collectable carries on. A used-up rule degrades to
    /// `NoSpawn`; an empty list, or a random range with no free cell
    /// found within `MAX_RNG_TRYS` draws, yields no spawn point.
    pub fn next_spawn(self, occupied: &Vec<GridPos>) -> (r: (Option<GridPos>, SpawnType))
        requires
            self matches SpawnType::RandomRange(a, b) ==> a.x != b.x && a.y != b.y,
            self matches SpawnType::Order(l, i) ==> i < usize::MAX,
        ensures
            next_spawn_rel(self, occupied@, r.0, r.1),
    {
        match self {
            SpawnType::NoSpawn => (None, SpawnType::NoSpawn),
            SpawnType::RandomRange(a, b) => {
                let lo_x = if a.x <= b.x {
                    a.x
                } else {
                    b.x
                };
                let hi_x = if a.x <= b.x {
                    b.x
                } else {
                    a.x
                };
                let lo_y = if a.y <= b.y {
                    a.y
                } else {
                    b.y
                };
                let hi_y = if a.y <= b.y {
                    b.y
                } else {
                    a.y
                };
                let mut trys: usize = 0;
                let mut found: Option<GridPos> = None;
                while trys < MAX_RNG_TRYS && found.is_none()
                    invariant
                        lo_x < hi_x,
                        lo_y < hi_y,
                        lo_x == grid_min(a.x, b.x) && hi_x == grid_max(a.x, b.x),
                        lo_y == grid_min(a.y, b.y) && hi_y == grid_max(a.y, b.y),
                        found matches Some(p) ==> in_grid_range(p, a, b) && !occupied@.contains(p),
                    decreases MAX_RNG_TRYS - trys,
                {
                    let x = gen_range_i32(lo_x, hi_x);
                    let y = gen_range_i32(lo_y, hi_y);
                    let p = GridPos { x, y };
                    if !contains_grid_pos(occupied, p) {
                        found = Some(p);
                    }
                    trys = trys + 1;
                }
                (found, SpawnType::RandomRange(a, b))
            },
            SpawnType::RandomPoints(pts) => {
                if pts.len() == 0 {
                    (None, SpawnType::RandomPoints(pts))
                } else {
                    let i = gen_index(pts.len());
                    let p = pts[i];
                    (Some(p), SpawnType::RandomPoints(pts))
                }
            },
            SpawnType::Fixed(p) => (Some(p), SpawnType::NoSpawn),
            SpawnType::Order(list, idx) => {
                if list.len() == 0 {
                    (None, SpawnType::Order(list, idx))
                } else {
                    let ni = (idx + 1) % list.len();
                    let p = list[ni];
                    (Some(p), SpawnType::Order(list, ni))
                }
            },
            SpawnType::OrderDec(mut list) => {
                match list.pop() {
                    None => (None, SpawnType::OrderDec(list)),
                    Some(p) => {
                        if list.len() == 0 {
                            (Some(p), SpawnType::NoSpawn)
                        } else {
                            (Some(p), SpawnType::OrderDec(list))
                        }
                    },
                }
            },
            SpawnType::RandomPointsDec(mut pts) => {
                if pts.len() == 0 {
                    (None, SpawnType::RandomPointsDec(pts))
                } else {
                    let i = gen_index(pts.len());
                    let p = pts.remove(i);
                    if pts.len() == 0 {
                        (Some(p), SpawnType::NoSpawn)
                    } else {
                        (Some(p), SpawnType::RandomPointsDec(pts))
                    }
                }
            },
        }
    }
}

/// What picking a collectable up does to the replay state: one point
/// is scored and a ghost spawn is requested with the given template.
/// The pickup's despawn and its respawn are the engine's.
pub fn collect_pickup(
    session: &mut ReplaySession,
    score: &mut Score,
    template: Option<PlayerState>,
) -> (ok: bool)
    requires
        old(session).wf(),
        old(score).0 < usize::MAX,
    ensures
        final(session)@ == spec_spawn_ghost(old(session)@, template),
        final(session).wf(),
        final(score).0 == old(score).0 + 1,
        ok == !(template is None),
{
    score.0 = score.0 + 1;
    session.handle_ghost_event(GhostEvents::SpawnGhost, template)
}

} // verus!
