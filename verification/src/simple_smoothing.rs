//! The single-previous smoothing policy: keep rendering the previous
//! decision while the candidate stays similar to it, else switch.

use vstd::prelude::*;
use crate::crop::{CropResult, MAX_COORD, result_in_range, spec_crop_similar, is_crop_similar};

verus! {

/// Smoothing state for one stream under the single-previous policy.
pub struct SimpleSmoothingVideoProcessor {
    /// The decision rendered for the previous frame, `None` before the
    /// first frame.
    pub previous_crop: Option<CropResult>,
}

impl SimpleSmoothingVideoProcessor {
    /// All decisions held by the state are within coordinate range.
    pub open spec fn wf(&self) -> bool {
        self.previous_crop matches Some(c) ==> result_in_range(c)
    }

    /// Creates a new simple smoothing video processor.
    pub fn new() -> (r: Self)
        ensures
            r.previous_crop is None,
            r.wf(),
    {
        Self { previous_crop: None }
    }

    /// Decides what to render for one frame: the previous decision when
    /// the candidate is similar to it, else the candidate; the returned
    /// decision becomes the new previous one.
    pub fn process_frame_with_smoothing(
        &mut self,
        latest_crop: &CropResult,
        frame_width: i64,
        smooth_percentage: i64,
    ) -> (r: CropResult)
        requires
            old(self).wf(),
            result_in_range(*latest_crop),
            0 <= frame_width <= MAX_COORD as int,
            0 <= smooth_percentage <= MAX_COORD as int,
        ensures
            r == match old(self).previous_crop {
                None => *latest_crop,
                Some(prev) => if spec_crop_similar(*latest_crop, prev, frame_width as int, smooth_percentage as int) {
                    prev
                } else {
                    *latest_crop
                },
            },
            final(self).previous_crop == Some(r),
            final(self).wf(),
            result_in_range(r),
    {
        let crop_result = match &self.previous_crop {
            Some(prev_crop) => {
                if is_crop_similar(latest_crop, prev_crop, frame_width, smooth_percentage) {
                    *prev_crop
                } else {
                    *latest_crop
                }
            }
            None => *latest_crop,
        };
        self.previous_crop = Some(crop_result);
        crop_result
    }
}

} // verus!
