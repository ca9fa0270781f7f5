//! Axis-aligned hit boxes and their overlap test, in the fixed-point
//! world units of `Pos`.

use vstd::prelude::*;

use crate::replay::Pos;

verus! {

/// An axis-aligned hit box: its full width and height, centred on the
/// entity's offset.
#[derive(Clone, Copy, Debug, PartialEq, Eq, Structural)]
pub struct HitBox {
    pub width: i64,
    pub height: i64,
}

/// Whether two boxes centred at the two offsets overlap: strict
/// comparison of the half-extents on each axis, written with both
/// sides doubled so no half is rounded away.
pub open spec fn spec_check_hit(
    hitbox: HitBox,
    offset: Pos,
    other_hitbox: HitBox,
    other_offset: Pos,
) -> bool {
    &&& 2 * offset.x + hitbox.width > 2 * other_offset.x - other_hitbox.width
    &&& 2 * offset.x - hitbox.width < 2 * other_offset.x + other_hitbox.width
    &&& 2 * offset.y + hitbox.height > 2 * other_offset.y - other_hitbox.height
    &&& 2 * offset.y - hitbox.height < 2 * other_offset.y + other_hitbox.height
}

/// Tests two hit boxes for overlap.
pub fn check_hit(hitbox: HitBox, offset: Pos, other_hitbox: HitBox, other_offset: Pos) -> (r: bool)
    ensures
        r == spec_check_hit(hitbox, offset, other_hitbox, other_offset),
{
    let x0 = offset.x as i128;
    let y0 = offset.y as i128;
    let x1 = other_offset.x as i128;
    let y1 = other_offset.y as i128;
    let w0 = hitbox.width as i128;
    let h0 = hitbox.height as i128;
    let w1 = other_hitbox.width as i128;
    let h1 = other_hitbox.height as i128;
    2 * x0 + w0 > 2 * x1 - w1 && 2 * x0 - w0 < 2 * x1 + w1 && 2 * y0 + h0 > 2 * y1 - h1 && 2 * y0
        - h0 < 2 * y1 + h1
}

} // verus!
