//! The ball-tracking smoothing policy.
//!
//! Tracks up to the three most recent positions of a single object. On a
//! cut the track resets; with one detection the candidate decision stands;
//! with several, the most confident detection is re-cropped alone; with
//! none, the next position is predicted from the track when it is long
//! enough, else the previous decision (or the candidate) stands.

use vstd::prelude::*;
use crate::crop::{
    CropResult, ObjectBox, MAX_COORD, result_in_range, object_in_range, objects_in_range,
    spec_cx, spec_single_centered, calculate_crop_area,
};
use crate::cut::{CutDetector, spec_is_cut_first, spec_is_cut_next};
use crate::predict::{predict_current_hbb, spec_predicted_coord};

verus! {

/// A detection's confidence, zero when the detector reported none.
pub open spec fn spec_conf(h: ObjectBox) -> int {
    match h.confidence {
        Some(c) => c as int,
        None => 0,
    }
}

/// The index a maximum fold over confidence picks from a non-empty
/// sequence: the last index whose confidence is maximal.
pub open spec fn spec_best_ball_idx(s: Seq<ObjectBox>) -> int
    recommends s.len() >= 1,
    decreases s.len(),
{
    if s.len() <= 1 { 0 }
    else {
        let prev = spec_best_ball_idx(s.drop_last());
        if spec_conf(s.last()) >= spec_conf(s[prev]) { s.len() - 1 } else { prev }
    }
}

/// The best-confidence index is a valid index and its confidence maximal.
pub proof fn lemma_best_ball_idx(s: Seq<ObjectBox>)
    requires
        s.len() >= 1,
    ensures
        0 <= spec_best_ball_idx(s) < s.len(),
        forall|i: int| 0 <= i < s.len() ==> spec_conf(#[trigger] s[i]) <= spec_conf(s[spec_best_ball_idx(s)]),
    decreases s.len(),
{
    if s.len() > 1 {
        lemma_best_ball_idx(s.drop_last());
        assert(forall|i: int| 0 <= i < s.len() - 1 ==> s.drop_last()[i] == #[trigger] s[i]);
        assert(s.last() == s[s.len() - 1]);
    }
}

/// A box reduced to its geometry, confidence and label dropped, as the
/// track stores positions.
pub open spec fn spec_bare_box(b: ObjectBox) -> ObjectBox {
    ObjectBox { x: b.x, y: b.y, width: b.width, height: b.height, confidence: None, label: None }
}

/// Smoothing state for one stream under the ball-tracking policy.
pub struct BallVideoProcessor {
    /// The decision rendered most recently, `None` before the first frame.
    pub previous_crop: Option<CropResult>,
    /// The tracked position three frames ago, oldest slot of the ring.
    pub hbb_three_frames_ago: Option<ObjectBox>,
    /// The tracked position two frames ago.
    pub hbb_two_frames_ago: Option<ObjectBox>,
    /// The tracked position on the last frame, newest slot of the ring.
    pub hbb_last_frame: Option<ObjectBox>,
    /// The per-stream cut detector state.
    pub cut_detector: CutDetector,
}

impl BallVideoProcessor {
    /// All stored decisions and positions are within coordinate range.
    pub open spec fn wf(&self) -> bool {
        &&& self.previous_crop matches Some(c) ==> result_in_range(c)
        &&& self.hbb_three_frames_ago matches Some(b) ==> object_in_range(b)
        &&& self.hbb_two_frames_ago matches Some(b) ==> object_in_range(b)
        &&& self.hbb_last_frame matches Some(b) ==> object_in_range(b)
    }

    /// Creates a new ball video processor with the cut detector's two
    /// thresholds.
    pub fn new(cut_similarity: i64, cut_start: i64) -> (r: Self)
        ensures
            r.previous_crop is None,
            r.hbb_three_frames_ago is None,
            r.hbb_two_frames_ago is None,
            r.hbb_last_frame is None,
            r.cut_detector.previous_score is None,
            r.cut_detector.similarity_threshold == cut_similarity,
            r.cut_detector.previous_similarity_threshold == cut_start,
            r.wf(),
    {
        Self {
            previous_crop: None,
            hbb_three_frames_ago: None,
            hbb_two_frames_ago: None,
            hbb_last_frame: None,
            cut_detector: CutDetector::new(cut_similarity, cut_start),
        }
    }

    /// Decides what to render for one frame of ball tracking.
    ///
    /// `score` is the similarity of the previous and current frame, `None`
    /// on the first frame (treated as a cut, with the detector untouched).
    /// On a cut the track clears and the candidate stands. Otherwise: with
    /// several detections, a fresh single-object crop of the most confident
    /// one; with one, the candidate; with none, a crop of the predicted
    /// position when all three track slots are filled, else the previous
    /// decision (or the candidate when there is none). The track ring
    /// shifts every non-cut frame.
    #[verifier::rlimit(100)]
    pub fn process_frame_with_smoothing(
        &mut self,
        latest_crop: &CropResult,
        objects: &Vec<ObjectBox>,
        score: Option<i64>,
        frame_width: i64,
        frame_height: i64,
    ) -> (r: CropResult)
        requires
            old(self).wf(),
            result_in_range(*latest_crop),
            objects_in_range(objects@),
            0 <= frame_width <= MAX_COORD as int,
            0 <= frame_height <= MAX_COORD as int,
        ensures
            final(self).wf(),
            result_in_range(r),
            final(self).previous_crop matches Some(c) && c == r,
            ({
                let cut = match (score, old(self).cut_detector.previous_score) {
                    (Some(s), Some(p)) => spec_is_cut_next(
                        s as int, p as int,
                        old(self).cut_detector.similarity_threshold as int,
                        old(self).cut_detector.previous_similarity_threshold as int),
                    (Some(s), None) => spec_is_cut_first(
                        s as int, old(self).cut_detector.similarity_threshold as int),
                    (None, _) => true,
                };
                if cut {
                    &&& r == *latest_crop
                    &&& final(self).hbb_three_frames_ago is None
                    &&& final(self).hbb_two_frames_ago is None
                    &&& final(self).hbb_last_frame is None
                } else if objects@.len() > 1 {
                    let ball = objects@[spec_best_ball_idx(objects@)];
                    &&& r matches CropResult::Single(a) && crate::crop::area_tuple(a)
                        == spec_single_centered(spec_cx(ball), frame_width as int, frame_height as int)
                    &&& final(self).hbb_three_frames_ago == old(self).hbb_two_frames_ago
                    &&& final(self).hbb_two_frames_ago == old(self).hbb_last_frame
                    &&& final(self).hbb_last_frame == Some(spec_bare_box(ball))
                } else if objects@.len() == 1 {
                    &&& r == *latest_crop
                    &&& final(self).hbb_three_frames_ago == old(self).hbb_two_frames_ago
                    &&& final(self).hbb_two_frames_ago == old(self).hbb_last_frame
                    &&& final(self).hbb_last_frame == Some(objects@[0])
                } else {
                    match (old(self).hbb_three_frames_ago, old(self).hbb_two_frames_ago, old(self).hbb_last_frame) {
                        (Some(t3), Some(t2), Some(l)) => {
                            &&& final(self).hbb_last_frame matches Some(p)
                                && p.x == spec_predicted_coord(t3.x as int, t2.x as int, l.x as int, frame_width as int)
                                && p.y == spec_predicted_coord(t3.y as int, t2.y as int, l.y as int, frame_height as int)
                                && p.width == l.width && p.height == l.height
                                && p.confidence is None && p.label is None
                                && (r matches CropResult::Single(a) && crate::crop::area_tuple(a)
                                    == spec_single_centered(spec_cx(p), frame_width as int, frame_height as int))
                            &&& final(self).hbb_three_frames_ago == old(self).hbb_two_frames_ago
                            &&& final(self).hbb_two_frames_ago == old(self).hbb_last_frame
                        }
                        _ => {
                            &&& final(self).hbb_three_frames_ago == old(self).hbb_two_frames_ago
                            &&& final(self).hbb_two_frames_ago == old(self).hbb_last_frame
                            &&& final(self).hbb_last_frame is None
                            &&& r == match old(self).previous_crop {
                                Some(prev) => prev,
                                None => *latest_crop,
                            }
                        }
                    }
                }
            }),
            final(self).cut_detector == match score {
                Some(s) => (CutDetector {
                    previous_score: Some(s),
                    similarity_threshold: old(self).cut_detector.similarity_threshold,
                    previous_similarity_threshold: old(self).cut_detector.previous_similarity_threshold,
                }),
                None => old(self).cut_detector,
            },
    {
        let is_cut = match score {
            Some(s) => self.cut_detector.is_cut(s),
            None => true,
        };

        if is_cut {
            self.hbb_three_frames_ago = None;
            self.hbb_two_frames_ago = None;
            self.hbb_last_frame = None;
            self.previous_crop = Some(*latest_crop);
            return *latest_crop;
        }

        if objects.len() > 0 {
            if objects.len() > 1 {
                let mut best: usize = 0;
                let mut best_conf: i64 = match objects[0].confidence {
                    Some(c) => c,
                    None => 0,
                };
                let mut i: usize = 1;
                proof {
                    assert(objects@.take(1)[0] == objects@[0]);
                }
                while i < objects.len()
                    invariant
                        1 <= i <= objects@.len(),
                        objects_in_range(objects@),
                        0 <= best < i,
                        best == spec_best_ball_idx(objects@.take(i as int)),
                        best_conf == spec_conf(objects@[best as int]),
                    decreases objects@.len() - i,
                {
                    proof {
                        assert(objects@.take(i + 1).drop_last() =~= objects@.take(i as int));
                        assert(objects@.take(i + 1).last() == objects@[i as int]);
                        assert(forall|j: int| 0 <= j < i ==> objects@.take(i as int)[j] == #[trigger] objects@[j]);
                    }
                    let conf = match objects[i].confidence {
                        Some(c) => c,
                        None => 0,
                    };
                    if conf >= best_conf {
                        best = i;
                        best_conf = conf;
                    }
                    i = i + 1;
                }
                proof {
                    assert(objects@.take(objects@.len() as int) =~= objects@);
                }
                let ball = objects[best];

                let mut single: Vec<ObjectBox> = Vec::new();
                single.push(ball);
                proof {
                    assert(single@ =~= seq![ball]);
                }
                let single_ball_crop = calculate_crop_area(false, false, frame_width, frame_height, &single);

                self.hbb_three_frames_ago = self.hbb_two_frames_ago;
                self.hbb_two_frames_ago = self.hbb_last_frame;
                self.hbb_last_frame = Some(ObjectBox {
                    x: ball.x,
                    y: ball.y,
                    width: ball.width,
                    height: ball.height,
                    confidence: None,
                    label: None,
                });
                self.previous_crop = Some(single_ball_crop);
                single_ball_crop
            } else {
                self.hbb_three_frames_ago = self.hbb_two_frames_ago;
                self.hbb_two_frames_ago = self.hbb_last_frame;
                self.hbb_last_frame = Some(objects[0]);
                self.previous_crop = Some(*latest_crop);
                *latest_crop
            }
        } else {
            let slots = (self.hbb_three_frames_ago, self.hbb_two_frames_ago, self.hbb_last_frame);
            if let (Some(t3), Some(t2), Some(l)) = slots {
                let current_hbb = predict_current_hbb(&t3, &t2, &l, frame_width, frame_height);
                let mut single: Vec<ObjectBox> = Vec::new();
                single.push(current_hbb);
                proof {
                    assert(single@ =~= seq![current_hbb]);
                }
                let current_crop = calculate_crop_area(false, false, frame_width, frame_height, &single);
                self.hbb_three_frames_ago = self.hbb_two_frames_ago;
                self.hbb_two_frames_ago = self.hbb_last_frame;
                self.hbb_last_frame = Some(current_hbb);
                self.previous_crop = Some(current_crop);
                current_crop
            } else {
                self.hbb_three_frames_ago = self.hbb_two_frames_ago;
                self.hbb_two_frames_ago = self.hbb_last_frame;
                self.hbb_last_frame = None;
                let r = match self.previous_crop {
                    Some(prev) => prev,
                    None => *latest_crop,
                };
                self.previous_crop = Some(r);
                r
            }
        }
    }
}

} // verus!
