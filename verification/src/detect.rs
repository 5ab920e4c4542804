//! Pre-filtering of raw detections before they reach the crop engine.
//!
//! A detection passes when its confidence reaches the threshold, its label
//! matches the tracked class, and its area is at least the configured
//! fraction of the frame (the area test can be switched off, as callers do
//! for ball tracking, where a small far-away ball must still be kept).

use vstd::prelude::*;
use crate::crop::{ObjectBox, MAX_COORD, objects_in_range, spec_area};

verus! {

/// The area-fraction scale: a threshold of `AREA_FRACTION_ONE` means the
/// object must cover the whole frame; one of 200 means 2% of it.
pub const AREA_FRACTION_ONE: i64 = 10_000;

/// The confidence scale: a detection with confidence `CONFIDENCE_ONE` is
/// fully certain; thresholds are expressed on the same scale.
pub const CONFIDENCE_ONE: i64 = 1_000_000;

/// Whether one detection passes the filter: confident enough, the right
/// label, and (unless the area test is off) covering at least
/// `area_threshold / AREA_FRACTION_ONE` of the frame. A detection without
/// a confidence or without a label never passes.
pub open spec fn spec_object_passes(
    h: ObjectBox,
    object_label: u32,
    ignore_area_threshold: bool,
    prob_threshold: int,
    area_threshold: int,
    frame_width: int,
    frame_height: int,
) -> bool {
    let confident = h.confidence matches Some(c) && c >= prob_threshold;
    let labeled = h.label matches Some(l) && l == object_label;
    let area_ok = ignore_area_threshold
        || (AREA_FRACTION_ONE as int) * spec_area(h) >= area_threshold * (frame_width * frame_height);
    confident && labeled && area_ok
}

/// The detections that pass the filter, in their original order.
pub open spec fn spec_objects_above_threshold(
    s: Seq<ObjectBox>,
    object_label: u32,
    ignore_area_threshold: bool,
    prob_threshold: int,
    area_threshold: int,
    frame_width: int,
    frame_height: int,
) -> Seq<ObjectBox>
    decreases s.len(),
{
    if s.len() == 0 { Seq::empty() }
    else {
        let rest = spec_objects_above_threshold(
            s.drop_last(), object_label, ignore_area_threshold,
            prob_threshold, area_threshold, frame_width, frame_height);
        if spec_object_passes(
            s.last(), object_label, ignore_area_threshold,
            prob_threshold, area_threshold, frame_width, frame_height)
        { rest.push(s.last()) } else { rest }
    }
}

/// Extracts the detections of the tracked class that are above the
/// confidence threshold and, unless `ignore_area_threshold` is set, above
/// the minimum area fraction of the frame.
pub fn extract_objects_above_threshold(
    objects: &Vec<ObjectBox>,
    object_label: u32,
    ignore_area_threshold: bool,
    object_prob_threshold: i64,
    object_area_threshold: i64,
    frame_width: i64,
    frame_height: i64,
) -> (r: Vec<ObjectBox>)
    requires
        objects_in_range(objects@),
        0 <= object_area_threshold <= AREA_FRACTION_ONE as int,
        0 <= frame_width <= MAX_COORD as int,
        0 <= frame_height <= MAX_COORD as int,
    ensures
        r@ == spec_objects_above_threshold(
            objects@, object_label, ignore_area_threshold,
            object_prob_threshold as int, object_area_threshold as int,
            frame_width as int, frame_height as int),
        objects_in_range(r@),
{
    proof {
        assert(frame_width * frame_height <= (MAX_COORD as int) * (MAX_COORD as int)
            && frame_width * frame_height >= 0)
            by (nonlinear_arith)
            requires 0 <= frame_width <= MAX_COORD as int && 0 <= frame_height <= MAX_COORD as int;
    }
    let frame_area = frame_width * frame_height;
    let mut r: Vec<ObjectBox> = Vec::new();
    let mut i: usize = 0;
    while i < objects.len()
        invariant
            0 <= i <= objects@.len(),
            objects_in_range(objects@),
            0 <= object_area_threshold <= AREA_FRACTION_ONE as int,
            frame_area == (frame_width as int) * (frame_height as int),
            0 <= frame_area <= (MAX_COORD as int) * (MAX_COORD as int),
            r@ == spec_objects_above_threshold(
                objects@.take(i as int), object_label, ignore_area_threshold,
                object_prob_threshold as int, object_area_threshold as int,
                frame_width as int, frame_height as int),
            objects_in_range(r@),
        decreases objects@.len() - i,
    {
        let h = objects[i];
        proof {
            assert(objects@.take(i + 1).drop_last() =~= objects@.take(i as int));
            assert(objects@.take(i + 1).last() == objects@[i as int]);
        }
        let confident = match h.confidence {
            Some(c) => c >= object_prob_threshold,
            None => false,
        };
        let labeled = match h.label {
            Some(l) => l == object_label,
            None => false,
        };
        let area_ok = if ignore_area_threshold {
            true
        } else {
            proof {
                assert(h.width * h.height <= (MAX_COORD as int) * (MAX_COORD as int)
                    && h.width * h.height >= 0)
                    by (nonlinear_arith)
                    requires 0 <= h.width <= MAX_COORD as int && 0 <= h.height <= MAX_COORD as int;
                assert(object_area_threshold * frame_area
                    <= (AREA_FRACTION_ONE as int) * ((MAX_COORD as int) * (MAX_COORD as int))
                    && object_area_threshold * frame_area >= 0)
                    by (nonlinear_arith)
                    requires 0 <= object_area_threshold <= AREA_FRACTION_ONE as int
                        && 0 <= frame_area <= (MAX_COORD as int) * (MAX_COORD as int);
            }
            let object_area = h.width * h.height;
            AREA_FRACTION_ONE * object_area >= object_area_threshold * frame_area
        };
        if confident && labeled && area_ok {
            r.push(h);
        }
        i = i + 1;
    }
    proof {
        assert(objects@.take(objects@.len() as int) =~= objects@);
    }
    r
}

} // verus!
