//! The history-buffered smoothing policy, the primary temporal smoothing
//! state machine.
//!
//! Per frame the controller receives the engine's candidate decision, the
//! detected object count, and the similarity score of the previous and
//! current frame, and returns the list of `(frame, decision)` pairs that
//! are now final and must be rendered, in arrival order. A frame may be
//! withheld in the history buffer while a proposed change of decision
//! awaits confirmation; a scene cut, a confirmation, or a rejection drains
//! the buffer retroactively.

use vstd::prelude::*;
use crate::crop::{
    CropResult, MAX_COORD, result_in_range, spec_crop_similar, crop_class,
    is_crop_similar, is_crop_class_same,
};
use crate::cut::{CutDetector, spec_is_cut_first, spec_is_cut_next};
use crate::history::{CropHistory, FrameData};

verus! {

/// `actions` replays every buffered frame, in order, with decision `crop`.
pub open spec fn spec_flush_actions<I>(
    actions: Seq<(I, CropResult)>, hist: Seq<FrameData<I>>, crop: CropResult,
) -> bool {
    actions.len() == hist.len()
        && forall|i: int| 0 <= i < hist.len() ==> actions[i] == ((#[trigger] hist[i]).image, crop)
}

/// Which decision a rejected change hypothesis is replayed with: a
/// `Single` hypothesis wins over a `Stacked` or `Resize` previous decision
/// (single-region framing is preferred when available), else the previous
/// decision stands.
pub open spec fn spec_change_preferred(prev: CropResult, change: CropResult) -> bool {
    (prev matches CropResult::Stacked(_, _) || prev matches CropResult::Resize(_))
        && change matches CropResult::Single(_)
}

/// Drains the whole history into `actions`, replaying every frame with
/// `crop`.
fn flush_into<I>(history: &mut CropHistory<I>, crop: &CropResult, actions: &mut Vec<(I, CropResult)>)
    ensures
        final(history)@.len() == 0,
        final(actions)@.len() == old(actions)@.len() + old(history)@.len(),
        forall|i: int| 0 <= i < old(actions)@.len() ==> final(actions)@[i] == old(actions)@[i],
        forall|i: int| 0 <= i < old(history)@.len()
            ==> final(actions)@[old(actions)@.len() + i] == ((#[trigger] old(history)@[i]).image, *crop),
{
    let ghost orig_hist = old(history)@;
    let ghost orig_actions = old(actions)@;
    let ghost mut k: int = 0;
    while history.len() > 0
        invariant
            0 <= k <= orig_hist.len(),
            history@ == orig_hist.skip(k),
            actions@.len() == orig_actions.len() + k,
            forall|i: int| 0 <= i < orig_actions.len() ==> actions@[i] == orig_actions[i],
            forall|i: int| 0 <= i < k ==> actions@[orig_actions.len() + i] == ((#[trigger] orig_hist[i]).image, *crop),
        decreases history@.len(),
    {
        let fd = history.pop_front();
        if let Some(f) = fd {
            actions.push((f.image, *crop));
        }
        proof {
            assert(orig_hist.skip(k).remove(0) =~= orig_hist.skip(k + 1));
            k = k + 1;
        }
    }
    proof {
        assert(history@.len() == orig_hist.len() - k);
    }
}

/// Smoothing state for one stream under the history-buffered policy.
pub struct HistorySmoothingVideoProcessor<I> {
    /// The decision last committed to a rendered frame, `None` before the
    /// first frame.
    pub previous_crop: Option<CropResult>,
    /// The object count that went with the committed decision.
    pub previous_object_count: usize,
    /// The withheld frames of the standing change hypothesis.
    pub history: CropHistory<I>,
    /// The per-stream cut detector state.
    pub cut_detector: CutDetector,
}

impl<I> HistorySmoothingVideoProcessor<I> {
    /// Every stored decision is within coordinate range, and frames are
    /// only ever withheld once a committed decision exists.
    pub open spec fn wf(&self) -> bool {
        &&& self.previous_crop matches Some(c) ==> result_in_range(c)
        &&& forall|i: int| 0 <= i < self.history@.len()
            ==> result_in_range((#[trigger] self.history@[i]).crop)
        &&& self.previous_crop is None ==> self.history@.len() == 0
    }

    /// Creates a new history-smoothing video processor with the cut
    /// detector's two thresholds.
    pub fn new(cut_similarity: i64, cut_start: i64) -> (r: Self)
        ensures
            r.previous_crop is None,
            r.previous_object_count == 0,
            r.history@.len() == 0,
            r.cut_detector.previous_score is None,
            r.cut_detector.similarity_threshold == cut_similarity,
            r.cut_detector.previous_similarity_threshold == cut_start,
            r.wf(),
    {
        Self {
            previous_crop: None,
            previous_object_count: 0,
            history: CropHistory::new(),
            cut_detector: CutDetector::new(cut_similarity, cut_start),
        }
    }

    /// Processes one frame and returns the `(frame, decision)` pairs that
    /// became final, in arrival order.
    ///
    /// `score` is the similarity of the previous and current frame, `None`
    /// on the first frame (treated as a cut, with the detector untouched).
    /// The first frame adopts the candidate. A cut replays the buffer with
    /// the previous decision and adopts the candidate. A candidate similar
    /// to the previous decision with the same count class replays the
    /// buffer with, and keeps, the previous decision. Otherwise the
    /// candidate proposes a change: it is buffered as a fresh hypothesis,
    /// or confirms the standing one (promoting it once the buffer reaches
    /// the smoothing duration), or contradicts it, which replays the
    /// buffer with the preferred of the previous decision and the
    /// hypothesis and starts a fresh buffer with the candidate.
    #[verifier::rlimit(100)]
    pub fn process_frame_with_smoothing(
        &mut self,
        image: I,
        latest_crop: &CropResult,
        current_object_count: usize,
        score: Option<i64>,
        frame_width: i64,
        smooth_percentage: i64,
        smooth_duration_frames: usize,
    ) -> (actions: Vec<(I, CropResult)>)
        requires
            old(self).wf(),
            result_in_range(*latest_crop),
            0 <= frame_width <= MAX_COORD as int,
            0 <= smooth_percentage <= MAX_COORD as int,
        ensures
            final(self).wf(),
            smooth_duration_frames >= 1 && old(self).history@.len() <= smooth_duration_frames
                ==> final(self).history@.len() <= smooth_duration_frames,
            final(self).cut_detector == match (old(self).previous_crop, score) {
                (Some(_), Some(s)) => (CutDetector {
                    previous_score: Some(s),
                    similarity_threshold: old(self).cut_detector.similarity_threshold,
                    previous_similarity_threshold: old(self).cut_detector.previous_similarity_threshold,
                }),
                _ => old(self).cut_detector,
            },
            ({
                let hist0 = old(self).history@;
                match old(self).previous_crop {
                    None => {
                        &&& final(self).previous_crop == Some(*latest_crop)
                        &&& final(self).previous_object_count == current_object_count
                        &&& final(self).history@ == hist0
                        &&& actions@.len() == 1
                        &&& actions@[0] == (image, *latest_crop)
                    }
                    Some(prev) => {
                        let cut = match (score, old(self).cut_detector.previous_score) {
                            (Some(s), Some(p)) => spec_is_cut_next(
                                s as int, p as int,
                                old(self).cut_detector.similarity_threshold as int,
                                old(self).cut_detector.previous_similarity_threshold as int),
                            (Some(s), None) => spec_is_cut_first(
                                s as int, old(self).cut_detector.similarity_threshold as int),
                            (None, _) => true,
                        };
                        let keep = crop_class(current_object_count as int)
                                == crop_class(old(self).previous_object_count as int)
                            && spec_crop_similar(*latest_crop, prev, frame_width as int, smooth_percentage as int);
                        if cut {
                            &&& actions@.len() == hist0.len() + 1
                            &&& spec_flush_actions(actions@.take(hist0.len() as int), hist0, prev)
                            &&& actions@[hist0.len() as int] == (image, *latest_crop)
                            &&& final(self).history@.len() == 0
                            &&& final(self).previous_crop == Some(*latest_crop)
                            &&& final(self).previous_object_count == current_object_count
                        } else if keep {
                            &&& actions@.len() == hist0.len() + 1
                            &&& spec_flush_actions(actions@.take(hist0.len() as int), hist0, prev)
                            &&& actions@[hist0.len() as int] == (image, prev)
                            &&& final(self).history@.len() == 0
                            &&& final(self).previous_crop == Some(prev)
                            &&& final(self).previous_object_count == old(self).previous_object_count
                        } else if hist0.len() == 0 {
                            &&& actions@.len() == 0
                            &&& final(self).history@ == hist0.push((FrameData {
                                crop: *latest_crop, image, object_count: current_object_count }))
                            &&& final(self).previous_crop == Some(prev)
                            &&& final(self).previous_object_count == old(self).previous_object_count
                        } else {
                            let front = hist0[0];
                            let confirm = crop_class(current_object_count as int)
                                    == crop_class(front.object_count as int)
                                && spec_crop_similar(*latest_crop, front.crop, frame_width as int, smooth_percentage as int);
                            if confirm && hist0.len() == smooth_duration_frames {
                                &&& actions@.len() == hist0.len() + 1
                                &&& spec_flush_actions(actions@.take(hist0.len() as int), hist0, front.crop)
                                &&& actions@[hist0.len() as int] == (image, front.crop)
                                &&& final(self).history@.len() == 0
                                &&& final(self).previous_crop == Some(front.crop)
                                &&& final(self).previous_object_count == current_object_count
                            } else if confirm {
                                &&& actions@.len() == 0
                                &&& final(self).history@ == hist0.push((FrameData {
                                    crop: front.crop, image, object_count: front.object_count }))
                                &&& final(self).previous_crop == Some(prev)
                                &&& final(self).previous_object_count == old(self).previous_object_count
                            } else {
                                let winner = if spec_change_preferred(prev, front.crop) { front.crop } else { prev };
                                &&& actions@.len() == hist0.len()
                                &&& spec_flush_actions(actions@, hist0, winner)
                                &&& final(self).history@.len() == 1
                                &&& final(self).history@[0] == (FrameData {
                                    crop: *latest_crop, image, object_count: current_object_count })
                                &&& final(self).previous_crop == Some(winner)
                                &&& final(self).previous_object_count ==
                                    if spec_change_preferred(prev, front.crop) { front.object_count }
                                    else { old(self).previous_object_count }
                            }
                        }
                    }
                }
            }),
    {
        let mut actions: Vec<(I, CropResult)> = Vec::new();
        let prev_opt = self.previous_crop;
        match prev_opt {
            None => {
                self.previous_crop = Some(*latest_crop);
                self.previous_object_count = current_object_count;
                actions.push((image, *latest_crop));
                actions
            }
            Some(prev_crop) => {
                let is_same_class = is_crop_class_same(current_object_count, self.previous_object_count);
                let is_latest_crop_similar = is_crop_similar(latest_crop, &prev_crop, frame_width, smooth_percentage);
                let is_cut = match score {
                    Some(s) => self.cut_detector.is_cut(s),
                    None => true,
                };

                if is_cut {
                    flush_into(&mut self.history, &prev_crop, &mut actions);
                    actions.push((image, *latest_crop));
                    self.previous_crop = Some(*latest_crop);
                    self.previous_object_count = current_object_count;
                    actions
                } else if is_same_class && is_latest_crop_similar {
                    flush_into(&mut self.history, &prev_crop, &mut actions);
                    actions.push((image, prev_crop));
                    actions
                } else if self.history.len() == 0 {
                    self.history.add(*latest_crop, image, current_object_count);
                    actions
                } else {
                    let (change_crop, change_object_count) = match self.history.peek_front() {
                        Some(f) => (f.crop, f.object_count),
                        None => (*latest_crop, 0),
                    };

                    let is_change_crop_similar =
                        is_crop_similar(latest_crop, &change_crop, frame_width, smooth_percentage);
                    let is_change_object_count_similar =
                        is_crop_class_same(current_object_count, change_object_count);

                    if is_change_crop_similar && is_change_object_count_similar {
                        if self.history.len() == smooth_duration_frames {
                            flush_into(&mut self.history, &change_crop, &mut actions);
                            actions.push((image, change_crop));
                            self.previous_crop = Some(change_crop);
                            self.previous_object_count = current_object_count;
                            actions
                        } else {
                            self.history.add(change_crop, image, change_object_count);
                            actions
                        }
                    } else {
                        let use_change = match (&prev_crop, &change_crop) {
                            (CropResult::Stacked(_, _), CropResult::Single(_)) => true,
                            (CropResult::Resize(_), CropResult::Single(_)) => true,
                            _ => false,
                        };
                        let winner = if use_change { change_crop } else { prev_crop };
                        flush_into(&mut self.history, &winner, &mut actions);
                        self.history.add(*latest_crop, image, current_object_count);
                        self.previous_crop = Some(winner);
                        if use_change {
                            self.previous_object_count = change_object_count;
                        }
                        actions
                    }
                }
            }
        }
    }

    /// Ends the stream: replays any still-buffered frames with the last
    /// committed decision, so no frame is ever dropped.
    pub fn finalize_processing(&mut self) -> (actions: Vec<(I, CropResult)>)
        requires
            old(self).wf(),
        ensures
            final(self).wf(),
            final(self).history@.len() == 0,
            final(self).previous_crop == old(self).previous_crop,
            final(self).previous_object_count == old(self).previous_object_count,
            final(self).cut_detector == old(self).cut_detector,
            match old(self).previous_crop {
                Some(prev) => spec_flush_actions(actions@, old(self).history@, prev),
                None => actions@.len() == 0,
            },
    {
        let mut actions: Vec<(I, CropResult)> = Vec::new();
        let prev_opt = self.previous_crop;
        match prev_opt {
            Some(prev_crop) => {
                flush_into(&mut self.history, &prev_crop, &mut actions);
            }
            None => {}
        }
        actions
    }
}

} // verus!
