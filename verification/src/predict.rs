//! Short-horizon motion prediction for a tracked object.
//!
//! When a frame has no detection for the tracked object but recent history
//! exists, the next position is extrapolated from the last two positions
//! (constant velocity) or the last three (velocity plus acceleration), the
//! box keeping its last known size and its corner clamped into the frame.

use vstd::prelude::*;
use crate::crop::{ObjectBox, MAX_COORD, object_in_range, objects_in_range, half_toward_zero, spec_min, spec_max, half_i64};

verus! {

/// The predicted top-left corner from three consecutive positions:
/// `last + v2 + a/2` per axis, where `v1` and `v2` are the two
/// frame-to-frame velocities and `a = v2 - v1`, the halving rounding
/// toward zero; clamped into `[0, max]`.
pub open spec fn spec_predicted_coord(three_ago: int, two_ago: int, last: int, max: int) -> int {
    let v1 = two_ago - three_ago;
    let v2 = last - two_ago;
    let a = v2 - v1;
    spec_min(spec_max(last + v2 + half_toward_zero(a), 0), max)
}

/// The linear prediction from two consecutive positions:
/// `last + (last - prev)`, clamped into `[0, max]`.
pub open spec fn spec_linear_coord(prev: int, last: int, max: int) -> int {
    spec_min(spec_max(last + (last - prev), 0), max)
}

/// Clamps a predicted coordinate into `[0, max]`.
fn clamp_coord(v: i64, max: i64) -> (r: i64)
    requires
        -8 * (MAX_COORD as int) <= v <= 8 * (MAX_COORD as int),
        0 <= max <= MAX_COORD as int,
    ensures
        r == spec_min(spec_max(v as int, 0), max as int),
{
    let lo = if v >= 0 { v } else { 0 };
    if lo <= max { lo } else { max }
}

/// Predicts the tracked object's position on the current frame from its
/// positions on the last three frames, using velocity and acceleration.
/// The predicted box keeps the last frame's size and carries no confidence
/// or label.
pub fn predict_current_hbb(
    three_frames_ago: &ObjectBox,
    two_frames_ago: &ObjectBox,
    last_frame: &ObjectBox,
    max_x: i64,
    max_y: i64,
) -> (r: ObjectBox)
    requires
        object_in_range(*three_frames_ago),
        object_in_range(*two_frames_ago),
        object_in_range(*last_frame),
        0 <= max_x <= MAX_COORD as int,
        0 <= max_y <= MAX_COORD as int,
    ensures
        r.x == spec_predicted_coord(
            three_frames_ago.x as int, two_frames_ago.x as int, last_frame.x as int, max_x as int),
        r.y == spec_predicted_coord(
            three_frames_ago.y as int, two_frames_ago.y as int, last_frame.y as int, max_y as int),
        r.width == last_frame.width,
        r.height == last_frame.height,
        r.confidence is None && r.label is None,
        object_in_range(r),
{
    let v1_x = two_frames_ago.x - three_frames_ago.x;
    let v1_y = two_frames_ago.y - three_frames_ago.y;
    let v2_x = last_frame.x - two_frames_ago.x;
    let v2_y = last_frame.y - two_frames_ago.y;

    let ax = v2_x - v1_x;
    let ay = v2_y - v1_y;

    let predicted_x = last_frame.x + v2_x + half_i64(ax);
    let predicted_y = last_frame.y + v2_y + half_i64(ay);

    ObjectBox {
        x: clamp_coord(predicted_x, max_x),
        y: clamp_coord(predicted_y, max_y),
        width: last_frame.width,
        height: last_frame.height,
        confidence: None,
        label: None,
    }
}

/// Predicts the tracked object's position from its most recent positions,
/// oldest first: linear extrapolation from two positions, second-order
/// extrapolation from the last three; `None` with fewer than two.
pub fn predict_position(history: &Vec<ObjectBox>, max_x: i64, max_y: i64) -> (r: Option<ObjectBox>)
    requires
        objects_in_range(history@),
        0 <= max_x <= MAX_COORD as int,
        0 <= max_y <= MAX_COORD as int,
    ensures
        history@.len() < 2 ==> r is None,
        history@.len() == 2 ==> (r matches Some(b) && {
            let prev = history@[0];
            let last = history@[1];
            &&& b.x == spec_linear_coord(prev.x as int, last.x as int, max_x as int)
            &&& b.y == spec_linear_coord(prev.y as int, last.y as int, max_y as int)
            &&& b.width == last.width && b.height == last.height
            &&& b.confidence is None && b.label is None
        }),
        history@.len() >= 3 ==> (r matches Some(b) && {
            let three_ago = history@[history@.len() - 3];
            let two_ago = history@[history@.len() - 2];
            let last = history@[history@.len() - 1];
            &&& b.x == spec_predicted_coord(three_ago.x as int, two_ago.x as int, last.x as int, max_x as int)
            &&& b.y == spec_predicted_coord(three_ago.y as int, two_ago.y as int, last.y as int, max_y as int)
            &&& b.width == last.width && b.height == last.height
            &&& b.confidence is None && b.label is None
        }),
        r matches Some(b) ==> object_in_range(b),
{
    if history.len() < 2 {
        None
    } else if history.len() == 2 {
        let prev = history[0];
        let last = history[1];
        let predicted_x = last.x + (last.x - prev.x);
        let predicted_y = last.y + (last.y - prev.y);
        Some(ObjectBox {
            x: clamp_coord(predicted_x, max_x),
            y: clamp_coord(predicted_y, max_y),
            width: last.width,
            height: last.height,
            confidence: None,
            label: None,
        })
    } else {
        let n = history.len();
        Some(predict_current_hbb(&history[n - 3], &history[n - 2], &history[n - 1], max_x, max_y))
    }
}

} // verus!
