//! Scaling of stick positions.
//!
//! A position from 0 to 255 is absolute: 0 is left or up, 127 and 128 are the centre,
//! and 255 is right or down. Any other position is a signed deflection from rest,
//! right or up where it is positive.

use vstd::prelude::*;

verus! {

/// The lowest value that a stick axis reports: left or up.
pub const AXIS_MIN: i32 = -32768;

/// The highest value that a stick axis reports: right or down.
pub const AXIS_MAX: i32 = 32767;

/// Whether a stick position is absolute.
pub open spec fn is_absolute(position: int) -> bool {
    0 <= position <= 255
}

/// The axis value for a signed deflection: 128 units per step, held within the range
/// of the axis.
pub open spec fn deflection_value(deflection: int) -> int {
    if deflection * 128 < AXIS_MIN {
        AXIS_MIN as int
    } else if deflection * 128 > AXIS_MAX {
        AXIS_MAX as int
    } else {
        deflection * 128
    }
}

/// The axis value for a stick position. The positions from 0 to 127 are spread over
/// the lower half of the axis, and those from 128 to 255 over the upper half. Outside
/// of these the position is a deflection.
pub open spec fn axis_value(position: int) -> int {
    if 0 <= position <= 127 {
        -((127 - position) * 32768 / 127)
    } else if 128 <= position <= 255 {
        (position - 128) * 32767 / 127
    } else {
        deflection_value(position)
    }
}

/// The axis value for a vertical stick position. A deflection is flipped: up is
/// positive on the stick and negative on the axis.
pub open spec fn vertical_axis_value(y: int) -> int {
    if is_absolute(y) {
        axis_value(y)
    } else {
        deflection_value(1 - y)
    }
}

/// Scales a signed deflection to the range of a stick axis.
fn scale_deflection(deflection: i16) -> (axis: i32)
    ensures
        axis == deflection_value(deflection as int),
{
    let scaled: i32 = deflection as i32 * 128;
    if scaled < AXIS_MIN {
        AXIS_MIN
    } else if scaled > AXIS_MAX {
        AXIS_MAX
    } else {
        scaled
    }
}

/// Maps a stick position to the range of a stick axis:
/// 0 = leftmost or upmost = -32768, 127 and 128 = centre = 0,
/// 255 = rightmost or downmost = 32767. A position outside of 0 to 255 is a
/// deflection, scaled by 128 and held within the range.
pub fn map_axis_i16_to_i32(value: i16) -> (axis: i32)
    ensures
        axis == axis_value(value as int),
{
    if 0 <= value && value <= 127 {
        -((127 - value as i32) * 32768 / 127)
    } else if 128 <= value && value <= 255 {
        (value as i32 - 128) * 32767 / 127
    } else {
        scale_deflection(value)
    }
}

/// Maps a vertical stick position to the range of a stick axis. A deflection is
/// flipped first.
pub fn map_vertical_axis(y: i16) -> (axis: i32)
    requires
        1 - y <= i16::MAX,
    ensures
        axis == vertical_axis_value(y as int),
{
    if 0 <= y && y <= 255 {
        map_axis_i16_to_i32(y)
    } else {
        scale_deflection(1 - y)
    }
}

/// On the absolute positions, and beyond them to the right, a larger position never
/// gives a smaller axis value. The same holds among the negative deflections.
pub proof fn lemma_axis_is_monotone(p1: int, p2: int)
    requires
        p1 <= p2,
        0 <= p1 || p2 < 0,
    ensures
        axis_value(p1) <= axis_value(p2),
{
}

/// The axis value never leaves the range of the axis. Of the absolute positions
/// exactly the ends give the ends of the axis, and exactly the two centre positions
/// give its centre.
pub proof fn lemma_axis_range(p: int)
    ensures
        AXIS_MIN <= axis_value(p) <= AXIS_MAX,
        AXIS_MIN <= vertical_axis_value(p) <= AXIS_MAX,
        is_absolute(p) ==> (axis_value(p) == AXIS_MIN <==> p == 0),
        is_absolute(p) ==> (axis_value(p) == 0 <==> p == 127 || p == 128),
        is_absolute(p) ==> (axis_value(p) == AXIS_MAX <==> p == 255),
{
}

/// Up is negative: an absolute position further down never gives a smaller value,
/// and a deflection further up never gives a larger one.
pub proof fn lemma_up_is_negative(y1: int, y2: int)
    requires
        y1 <= y2,
    ensures
        is_absolute(y1) && is_absolute(y2) ==> vertical_axis_value(y1) <= vertical_axis_value(y2),
        !is_absolute(y1) && !is_absolute(y2) ==> vertical_axis_value(y2) <= vertical_axis_value(y1),
{
    if is_absolute(y1) && is_absolute(y2) {
        lemma_axis_is_monotone(y1, y2);
    }
}

/// A deflection counts in full: to the left of rest every step is worth exactly 128
/// units, down to the end of the axis, and to the right of the absolute positions the
/// axis is at its end.
pub proof fn lemma_deflections_are_proportional(p: int)
    ensures
        -256 <= p < 0 ==> axis_value(p) == 128 * p,
        p <= -256 ==> axis_value(p) == -32768,
        p >= 256 ==> axis_value(p) == 32767,
{
}

/// The absolute positions are spread evenly: each lies on the straight line from its
/// end of the axis to the centre, rounded towards the centre to a whole unit.
pub proof fn lemma_absolute_positions_are_spread_evenly(p: int)
    ensures
        0 <= p <= 127 ==> 127 * axis_value(p) - 127 < -32768 * (127 - p) <= 127 * axis_value(p),
        128 <= p <= 255 ==> 127 * axis_value(p) <= 32767 * (p - 128) < 127 * axis_value(p) + 127,
{
}

/// Vertically the absolute positions are worth the same as horizontally. Of a
/// deflection every step upwards lowers the value by exactly 128 units, between the
/// ends of the axis.
pub proof fn lemma_vertical_deflections_are_proportional(y: int)
    ensures
        0 <= y <= 255 ==> vertical_axis_value(y) == axis_value(y),
        -255 < y < 0 ==> vertical_axis_value(y) == 128 - 128 * y,
        y <= -255 ==> vertical_axis_value(y) == 32767,
        y == 256 ==> vertical_axis_value(y) == 128 - 128 * y,
        y >= 257 ==> vertical_axis_value(y) == -32768,
{
}

/// What calls of the two mappings give, for every position: the same on an absolute
/// position, and on any other one opposite values but for one step of 128 units and
/// the ends of the axis.
pub proof fn lemma_calls_map_positions(p: i16, horizontal: i32, vertical: i32)
    requires
        call_ensures(map_axis_i16_to_i32, (p,), horizontal),
        call_ensures(map_vertical_axis, (p,), vertical),
    ensures
        0 <= p <= 255 ==> horizontal == vertical,
        -256 <= p < 0 ==> horizontal == 128 * p,
        -255 < p < 0 ==> vertical == 128 - horizontal,
        p <= -256 ==> horizontal == -32768,
        p <= -255 ==> vertical == 32767,
        p >= 256 ==> horizontal == 32767,
        p == 256 ==> vertical == -32640,
        p >= 257 ==> vertical == -32768,
        0 <= p <= 127 ==> 127 * horizontal - 127 < -32768 * (127 - p) <= 127 * horizontal,
        128 <= p <= 255 ==> 127 * horizontal <= 32767 * (p - 128) < 127 * horizontal + 127,
{
}

} // verus!
