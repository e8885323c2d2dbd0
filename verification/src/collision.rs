//! The AABB collision probe: does a moving box overlap a static box, and if
//! so, which side of the static box was struck.

use vstd::math::abs;
use vstd::prelude::*;

use crate::geometry::Vec2i;

verus! {

/// The side of the static rectangle that the moving rectangle struck, or
/// `Inside` when the moving rectangle's center lies strictly inside the
/// static rectangle so that no exit side is dominant.
///
/// `Inside` triggers no reflection, so a ball fast enough to engulf a thin
/// collider within one tick can pass through it; whether that is intended
/// or a tunneling artifact is a known open question of this design, kept
/// as it is here.
#[derive(Clone, Copy, Debug, PartialEq, Eq, Structural)]
pub enum Collision {
    Left,
    Right,
    Top,
    Bottom,
    Inside,
}

/// Two axis-aligned rectangles, each given by center and full size, overlap
/// exactly when they do so on both axes: `|cx1 - cx2| < (w1 + w2) / 2` and
/// `|cy1 - cy2| < (h1 + h2) / 2` (stated doubled to stay in integers).
pub open spec fn overlaps(a_pos: Vec2i, a_size: Vec2i, b_pos: Vec2i, b_size: Vec2i) -> bool {
    &&& 2 * abs(a_pos.x - b_pos.x) < a_size.x + b_size.x
    &&& 2 * abs(a_pos.y - b_pos.y) < a_size.y + b_size.y
}

/// The moving rectangle's center lies strictly inside the static rectangle.
pub open spec fn center_inside(a_pos: Vec2i, b_pos: Vec2i, b_size: Vec2i) -> bool {
    &&& 2 * abs(a_pos.x - b_pos.x) < b_size.x
    &&& 2 * abs(a_pos.y - b_pos.y) < b_size.y
}

/// Twice the distance the moving box would have to travel along the x axis to
/// just clear the static box; positive exactly when the boxes overlap on x.
pub open spec fn x_penetration2(a_pos: Vec2i, a_size: Vec2i, b_pos: Vec2i, b_size: Vec2i) -> int {
    a_size.x + b_size.x - 2 * abs(a_pos.x - b_pos.x)
}

/// Twice the distance to clear the static box along the y axis.
pub open spec fn y_penetration2(a_pos: Vec2i, a_size: Vec2i, b_pos: Vec2i, b_size: Vec2i) -> int {
    a_size.y + b_size.y - 2 * abs(a_pos.y - b_pos.y)
}

/// The x-axis side of the static box nearest to the moving box: its left side
/// when the mover's center is left of (or level with) the target's center.
pub open spec fn x_side(a_pos: Vec2i, b_pos: Vec2i) -> Collision {
    if a_pos.x <= b_pos.x {
        Collision::Left
    } else {
        Collision::Right
    }
}

/// The y-axis side of the static box nearest to the moving box: its top side
/// when the mover's center is above (or level with) the target's center.
pub open spec fn y_side(a_pos: Vec2i, b_pos: Vec2i) -> Collision {
    if a_pos.y >= b_pos.y {
        Collision::Top
    } else {
        Collision::Bottom
    }
}

/// What the probe reports for a moving box `a` against a static box `b`:
/// nothing without overlap; `Inside` when `a`'s center is strictly inside
/// `b`; otherwise the side whose penetration is smallest, an x side winning
/// an exact tie between the axes.
pub open spec fn classify(a_pos: Vec2i, a_size: Vec2i, b_pos: Vec2i, b_size: Vec2i) -> Option<
    Collision,
> {
    if !overlaps(a_pos, a_size, b_pos, b_size) {
        None
    } else if center_inside(a_pos, b_pos, b_size) {
        Some(Collision::Inside)
    } else if y_penetration2(a_pos, a_size, b_pos, b_size) < x_penetration2(
        a_pos,
        a_size,
        b_pos,
        b_size,
    ) {
        Some(y_side(a_pos, b_pos))
    } else {
        Some(x_side(a_pos, b_pos))
    }
}

/// Absolute value on machine integers, widened so that no input overflows.
fn abs_i64(v: i64) -> (r: i64)
    requires
        v != i64::MIN,
    ensures
        r == abs(v as int),
{
    if v < 0 {
        -v
    } else {
        v
    }
}

/// The AABB collision probe.
///
/// Pure: reports whether the moving rectangle `a` overlaps the static
/// rectangle `b` and, if so, which side of `b` it struck.
pub fn collide(a_pos: Vec2i, a_size: Vec2i, b_pos: Vec2i, b_size: Vec2i) -> (r: Option<Collision>)
    ensures
        r == classify(a_pos, a_size, b_pos, b_size),
        r is Some <==> overlaps(a_pos, a_size, b_pos, b_size),
{
    let dx2: i64 = 2 * abs_i64(a_pos.x as i64 - b_pos.x as i64);
    let dy2: i64 = 2 * abs_i64(a_pos.y as i64 - b_pos.y as i64);
    let wsum: i64 = a_size.x as i64 + b_size.x as i64;
    let hsum: i64 = a_size.y as i64 + b_size.y as i64;
    if !(dx2 < wsum && dy2 < hsum) {
        None
    } else if dx2 < b_size.x as i64 && dy2 < b_size.y as i64 {
        Some(Collision::Inside)
    } else if hsum - dy2 < wsum - dx2 {
        if a_pos.y >= b_pos.y {
            Some(Collision::Top)
        } else {
            Some(Collision::Bottom)
        }
    } else {
        if a_pos.x <= b_pos.x {
            Some(Collision::Left)
        } else {
            Some(Collision::Right)
        }
    }
}

/// Overlap is symmetric: whether two rectangles overlap does not depend on
/// which of them is taken as the moving one.
pub proof fn lemma_overlap_symmetric(a_pos: Vec2i, a_size: Vec2i, b_pos: Vec2i, b_size: Vec2i)
    ensures
        overlaps(a_pos, a_size, b_pos, b_size) == overlaps(b_pos, b_size, a_pos, a_size),
{
}

} // verus!
