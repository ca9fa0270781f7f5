//! Player-side data and the pure decision logic of the movement systems.
//!
//! Velocities and positions are kept in fixed-point world units: one
//! engine unit is `UNIT` fixed-point units, so the engine's
//! floating-point values are scaled to integers at the boundary.

use vstd::prelude::*;

verus! {

/// Fixed-point scale: fixed-point units per engine unit.
pub const UNIT: i64 = 1000;

/// Horizontal speed a walking player is given, in fixed-point units.
pub const MOVE_SPEED: i64 = 100_000;

/// Upward speed a jump gives, in fixed-point units.
pub const JUMP_SPEED: i64 = 100_000;

/// Below this vertical speed (in magnitude) the player counts as
/// vertically still, and a double jump is not considered.
pub const STILL_EPSILON: i64 = 10;

/// The player's selectable skin. Ghosts copy whatever the player wore
/// on the recorded frame.
#[derive(Clone, Copy, Debug, PartialEq, Eq, Structural)]
pub enum Player {
    Mask,
    Ninja,
    Pink,
    Guy,
}

/// Whether the player currently stands on ground.
#[derive(Clone, Copy, Debug, PartialEq, Eq, Structural)]
pub struct Grounded(pub bool);

/// Whether a double jump is still available.
#[derive(Clone, Copy, Debug, PartialEq, Eq, Structural)]
pub struct Jump(pub bool);

/// A linear velocity, in fixed-point world units.
#[derive(Clone, Copy, Debug, PartialEq, Eq, Structural)]
pub struct Vel {
    pub x: i64,
    pub y: i64,
}

impl Vel {
    /// The resting velocity.
    pub fn zero() -> (r: Vel)
        ensures
            r == (Vel { x: 0, y: 0 }),
    {
        Vel { x: 0, y: 0 }
    }
}

/// The skin that follows `p` in the selection cycle.
pub open spec fn spec_next_skin(p: Player) -> Player {
    match p {
        Player::Mask => Player::Ninja,
        Player::Ninja => Player::Pink,
        Player::Pink => Player::Guy,
        Player::Guy => Player::Mask,
    }
}

/// What `change_player` leaves in place: either selection key cycles
/// the skin one step (the previous-skin key walks the same cycle as
/// the next-skin key); with neither key the skin is kept.
pub open spec fn spec_change_player(p: Player, next_pressed: bool, prev_pressed: bool) -> Player {
    if next_pressed {
        spec_next_skin(p)
    } else if prev_pressed {
        spec_next_skin(p)
    } else {
        p
    }
}

/// Applies the skin-selection keys to the player's skin.
pub fn change_player(player: &mut Player, next_pressed: bool, prev_pressed: bool)
    ensures
        *final(player) == spec_change_player(*old(player), next_pressed, prev_pressed),
{
    if next_pressed {
        *player = next_skin(*player);
    } else if prev_pressed {
        *player = next_skin(*player);
    }
}

/// One step through the skin cycle.
pub fn next_skin(p: Player) -> (r: Player)
    ensures
        r == spec_next_skin(p),
{
    match p {
        Player::Mask => Player::Ninja,
        Player::Ninja => Player::Pink,
        Player::Pink => Player::Guy,
        Player::Guy => Player::Mask,
    }
}

/// The velocity the movement system leaves on the player. Exactly one
/// branch applies, in this order: a jump from the ground sets the
/// upward speed; the fall key caps the vertical speed at zero; a held
/// direction key sets the horizontal speed unless the way is blocked.
pub open spec fn spec_move_player(
    v: Vel,
    jump_just_pressed: bool,
    fall_just_pressed: bool,
    left_pressed: bool,
    right_pressed: bool,
    grounded: bool,
    blocked_left: bool,
    blocked_right: bool,
) -> Vel {
    if jump_just_pressed && grounded {
        Vel { x: v.x, y: JUMP_SPEED }
    } else if fall_just_pressed {
        Vel { x: v.x, y: if v.y < 0 { v.y } else { 0 } }
    } else if left_pressed {
        if !blocked_left {
            Vel { x: (-MOVE_SPEED) as i64, y: v.y }
        } else {
            v
        }
    } else if right_pressed {
        if !blocked_right {
            Vel { x: MOVE_SPEED, y: v.y }
        } else {
            v
        }
    } else {
        v
    }
}

/// The movement decision of one tick, on the player's velocity. The
/// wall probes (`blocked_left`, `blocked_right`) are the physics
/// engine's ray casts, handed in as plain booleans.
pub fn move_player(
    velocity: &mut Vel,
    jump_just_pressed: bool,
    fall_just_pressed: bool,
    left_pressed: bool,
    right_pressed: bool,
    grounded: Grounded,
    blocked_left: bool,
    blocked_right: bool,
)
    ensures
        *final(velocity) == spec_move_player(
            *old(velocity),
            jump_just_pressed,
            fall_just_pressed,
            left_pressed,
            right_pressed,
            grounded.0,
            blocked_left,
            blocked_right,
        ),
{
    if jump_just_pressed && grounded.0 {
        velocity.y = JUMP_SPEED;
    } else if fall_just_pressed {
        if velocity.y >= 0 {
            velocity.y = 0;
        }
    } else if left_pressed {
        if !blocked_left {
            velocity.x = -MOVE_SPEED;
        }
    } else if right_pressed {
        if !blocked_right {
            velocity.x = MOVE_SPEED;
        }
    }
}

/// What one double-jump step leaves behind: landing on the ground
/// rearms the jump; then, unless the player is vertically still, a
/// jump press spends the armed jump for upward speed.
pub open spec fn spec_double_jump(
    jump: Jump,
    v: Vel,
    regained_ground: bool,
    jump_just_pressed: bool,
) -> (Jump, Vel) {
    let armed = if regained_ground {
        true
    } else {
        jump.0
    };
    if -STILL_EPSILON < v.y && v.y < STILL_EPSILON {
        (Jump(armed), v)
    } else if jump_just_pressed && armed {
        (Jump(false), Vel { x: v.x, y: JUMP_SPEED })
    } else {
        (Jump(armed), v)
    }
}

/// The double-jump decision of one tick. `regained_ground` says the
/// grounded flag changed this tick and is now set.
pub fn double_jump(
    jump: &mut Jump,
    velocity: &mut Vel,
    regained_ground: bool,
    jump_just_pressed: bool,
)
    ensures
        (*final(jump), *final(velocity)) == spec_double_jump(
            *old(jump),
            *old(velocity),
            regained_ground,
            jump_just_pressed,
        ),
{
    if regained_ground {
        jump.0 = true;
    }
    if -STILL_EPSILON < velocity.y && velocity.y < STILL_EPSILON {
        return ;
    }
    if jump_just_pressed && jump.0 {
        jump.0 = false;
        velocity.y = JUMP_SPEED;
    }
}

/// How long a stable height must be observed before the player counts
/// as grounded.
pub const GROUND_STREAK: i64 = 3;

/// What one ground-detection step leaves behind: the streak counter
/// moves one step toward `GROUND_STREAK` while the height is stable
/// and one step toward zero while it moves, clamped to that range;
/// the grounded flag flips on only at the full streak and off only at
/// zero.
pub open spec fn spec_ground_detection(streak: i64, grounded: bool, same_height: bool) -> (
    i64,
    bool,
) {
    let moved: int = if same_height {
        streak + 1
    } else {
        streak - 1
    };
    let clamped: i64 = if moved < 0 {
        0
    } else if moved > GROUND_STREAK {
        GROUND_STREAK
    } else {
        moved as i64
    };
    let on_ground = if clamped == GROUND_STREAK && !grounded {
        true
    } else if clamped == 0 && grounded {
        false
    } else {
        grounded
    };
    (clamped, on_ground)
}

/// The ground-detection step of one tick. `same_height` says the
/// player's height matches the previous tick's observation (the
/// floating-point comparison is the caller's).
pub fn ground_detection(streak: &mut i64, grounded: &mut Grounded, same_height: bool)
    requires
        0 <= *old(streak) <= GROUND_STREAK,
    ensures
        (*final(streak), final(grounded).0) == spec_ground_detection(
            *old(streak),
            old(grounded).0,
            same_height,
        ),
        0 <= *final(streak) <= GROUND_STREAK,
{
    if same_height {
        *streak = *streak + 1;
    } else {
        *streak = *streak - 1;
    }
    if *streak < 0 {
        *streak = 0;
    } else if *streak > GROUND_STREAK {
        *streak = GROUND_STREAK;
    }
    if *streak == GROUND_STREAK && !grounded.0 {
        grounded.0 = true;
    } else if *streak == 0 && grounded.0 {
        grounded.0 = false;
    }
}

/// The recognized player actions, as the input collaborator reports
/// them each tick.
#[derive(Clone, Copy, Debug, PartialEq, Eq, Structural)]
pub enum PlayerInput {
    Left,
    Right,
    Jump,
    Fall,
    NextPlayer,
    PrevPlayer,
}

} // verus!
