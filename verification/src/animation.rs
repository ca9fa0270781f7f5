//! Animation identifiers and the pure decisions of the animation
//! systems: which clip a player shows, which way the sprite faces, and
//! how a sprite index advances. Timing and rendering stay with the
//! engine; only their integer decisions live here.

use vstd::prelude::*;

verus! {

/// A logical animation identifier: a closed enum the renderer maps to
/// its own handles.
#[derive(Clone, Copy, Debug, PartialEq, Eq, Structural)]
pub enum Animation {
    PlayerIdle,
    PlayerRun,
    PlayerJump,
    PlayerFall,
    Strawberry,
    Bananas,
}

/// The clip a player shows: jumping wins, then falling, then running
/// while a move key is held, else idling.
pub open spec fn spec_select_player_animation(jumping: bool, grounded: bool, moving: bool) -> Animation {
    if jumping {
        Animation::PlayerJump
    } else if !grounded {
        Animation::PlayerFall
    } else if moving {
        Animation::PlayerRun
    } else {
        Animation::PlayerIdle
    }
}

/// Picks the player's clip for this tick.
pub fn select_player_animation(jumping: bool, grounded: bool, moving: bool) -> (r: Animation)
    ensures
        r == spec_select_player_animation(jumping, grounded, moving),
{
    if jumping {
        Animation::PlayerJump
    } else if !grounded {
        Animation::PlayerFall
    } else if moving {
        Animation::PlayerRun
    } else {
        Animation::PlayerIdle
    }
}

/// Which way the sprite faces after this tick's keys: a fresh left
/// press turns it left; a fresh right press turns it right unless left
/// is still held; releasing left turns it right when only right
/// remains held; otherwise it keeps facing as before.
pub open spec fn spec_select_flip(
    flip: bool,
    left_just_pressed: bool,
    right_just_pressed: bool,
    left_just_released: bool,
    left_pressed: bool,
    right_pressed: bool,
) -> bool {
    if left_just_pressed {
        true
    } else if right_just_pressed && !left_pressed {
        false
    } else if left_just_released && !left_pressed && right_pressed {
        false
    } else {
        flip
    }
}

/// Decides the sprite's horizontal flip for this tick.
pub fn select_flip(
    flip: bool,
    left_just_pressed: bool,
    right_just_pressed: bool,
    left_just_released: bool,
    left_pressed: bool,
    right_pressed: bool,
) -> (r: bool)
    ensures
        r == spec_select_flip(
            flip,
            left_just_pressed,
            right_just_pressed,
            left_just_released,
            left_pressed,
            right_pressed,
        ),
{
    if left_just_pressed {
        true
    } else if right_just_pressed && !left_pressed {
        false
    } else if left_just_released && !left_pressed && right_pressed {
        false
    } else {
        flip
    }
}

/// Where a sprite index lands after `frames` elapsed frames: it moves
/// forward and wraps once it passes the clip's length.
pub open spec fn spec_advance_sprite_index(index: usize, frames: usize, len: usize) -> usize {
    if index + frames >= len {
        ((index + frames) % (len as int)) as usize
    } else {
        (index + frames) as usize
    }
}

/// Advances a sprite index by `frames` frames through a clip of `len`
/// frames.
pub fn advance_sprite_index(index: usize, frames: usize, len: usize) -> (r: usize)
    requires
        len > 0,
        index + frames <= usize::MAX,
    ensures
        r == spec_advance_sprite_index(index, frames, len),
        r < len || r == index + frames,
{
    let mut next = index + frames;
    if next >= len {
        next = next % len;
    }
    next
}

} // verus!
