//! Differential-drive odometry in fixed point.
use vstd::prelude::*;
use crate::fixed_point::{Fix, saturate, mul_bits, div_bits, one};

verus! {

/// Bits of pi.
pub const PI_BITS: i64 = 13493037705;

/// Bits of the number of degrees in one radian.
pub const DEGREES_PER_RADIAN_BITS: i64 = 246083499208;

/// Bits of the number of radians in one degree.
pub const RADIANS_PER_DEGREE_BITS: i64 = 74961321;

/// Bits of the circumference of a wheel of diameter `d` (bits).
pub open spec fn circumference(d: int) -> int {
    mul_bits(d, PI_BITS as int)
}

/// Bits of the arc rolled by a wheel of diameter `d` (bits) over `degrees`.
pub open spec fn arc_length(d: int, degrees: int) -> int {
    div_bits(mul_bits(circumference(d), saturate(degrees * one())), 360 * one())
}

/// Bits of the distance travelled by the robot's centre: the mean of the arcs.
pub open spec fn mean_arc(left: int, right: int) -> int {
    div_bits(saturate(left + right), 2 * one())
}

/// Bits of `x` radians expressed in degrees.
pub open spec fn degrees(x: int) -> int {
    mul_bits(x, DEGREES_PER_RADIAN_BITS as int)
}

/// Bits of the heading change for wheel arcs `left`, `right` and axle track
/// `track`: `(left - right) / track` radians, in degrees.
pub open spec fn heading_change(left: int, right: int, track: int) -> int {
    degrees(div_bits(saturate(left - right), track))
}

/// The arc in millimetres rolled by a wheel of diameter `wheel_diameter`
/// turned by `degrees`.
pub fn wheel_arc(wheel_diameter: Fix, degrees: i64) -> (r: Fix)
    ensures
        r.raw() == arc_length(wheel_diameter.raw(), degrees as int),
{
    let circ = wheel_diameter.mul(Fix::from_bits(PI_BITS));
    let turned = circ.mul(Fix::from_wide_int(degrees));
    turned.div(Fix::from_int(360))
}

/// The distance travelled by the centre between wheels that rolled `left`
/// and `right`.
pub fn travelled(left: Fix, right: Fix) -> (r: Fix)
    ensures
        r.raw() == mean_arc(left.raw(), right.raw()),
{
    left.add(right).div(Fix::from_int(2))
}

/// The heading change in degrees for wheel arcs `left` and `right` on an
/// axle of `axle_track`.
pub fn heading_delta(left: Fix, right: Fix, axle_track: Fix) -> (r: Fix)
    requires
        axle_track.raw() != 0,
    ensures
        r.raw() == heading_change(left.raw(), right.raw(), axle_track.raw()),
{
    left.sub(right).div(axle_track).mul(Fix::from_bits(DEGREES_PER_RADIAN_BITS))
}

/// Equal arcs leave the heading unchanged.
pub proof fn lemma_equal_arcs_keep_heading(arc: int, track: int)
    requires
        track != 0,
        i64::MIN <= arc <= i64::MAX,
    ensures
        heading_change(arc, arc, track) == 0,
{
    assert(div_bits(0, track) == 0);
}

} // verus!
