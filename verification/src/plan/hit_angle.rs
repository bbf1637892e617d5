//! How far the aim of a hit may be turned.
use vstd::prelude::*;
use crate::math::is_wrapped;
use crate::vector::clamp;

verus! {

/// The turn kept within `max_angle_diff` of straight on.
pub open spec fn toward(turn: int, max_angle_diff: int) -> int {
    if turn < -max_angle_diff {
        if -max_angle_diff <= max_angle_diff {
            -max_angle_diff
        } else {
            max_angle_diff
        }
    } else if turn > max_angle_diff {
        max_angle_diff
    } else {
        turn
    }
}

/// The turn pushed `max_angle_adjust` further from straight on, on the side
/// on which it already is; a turn of nothing counts as a turn to the left.
pub open spec fn away(avoid: int, max_angle_adjust: int) -> int {
    if avoid >= 0 {
        avoid + max_angle_adjust
    } else {
        avoid - max_angle_adjust
    }
}

/// The angle by which the line from the ball to the ideal aim is turned
/// about the ball so that the car can hit along it: `turn`, the angle from
/// the line of approach to the ideal line, but no more than
/// `max_angle_diff` to either side.
pub fn feasible_hit_angle_toward(turn: i64, max_angle_diff: i64) -> (adjust: i64)
    requires
        max_angle_diff > i64::MIN,
    ensures
        adjust == toward(turn as int, max_angle_diff as int),
        max_angle_diff >= 0 ==> adjust == clamp(turn as int, max_angle_diff as int),
{
    let low = if turn < -max_angle_diff {
        -max_angle_diff
    } else {
        turn
    };
    if low > max_angle_diff {
        max_angle_diff
    } else {
        low
    }
}

/// The angle by which the line from the ball to the place to avoid is
/// turned about the ball to give the aim: `avoid`, the angle from the line
/// of approach to the line to avoid, and `max_angle_adjust` more on the same
/// side.
pub fn feasible_hit_angle_away(avoid: i64, max_angle_adjust: i64) -> (adjust: i64)
    requires
        is_wrapped(avoid as int),
        is_wrapped(max_angle_adjust as int),
    ensures
        adjust == away(avoid as int, max_angle_adjust as int),
{
    if avoid >= 0 {
        avoid + max_angle_adjust
    } else {
        avoid - max_angle_adjust
    }
}

} // verus!
