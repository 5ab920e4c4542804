//! Scene-cut decision rule with hysteresis.
//!
//! The pixel-level similarity of two consecutive frames is computed outside
//! this library (it is a property of image buffers, not of this decision
//! core) and handed in as an integer score: `0` for entirely different
//! frames up to [`SCORE_ONE`] for identical ones. If the caller's scorer
//! fails on a frame pair, the caller must not call [`CutDetector::is_cut`]
//! for that pair; the failure is the caller's to handle, never a silent
//! "cut" or "no cut".

use vstd::prelude::*;

verus! {

/// The similarity score of two identical images; scores are in
/// `[0, SCORE_ONE]`, parts per million of perfect similarity.
pub const SCORE_ONE: i64 = 1_000_000;

/// Below this score a cut is reported unconditionally, whatever the
/// previous score was (0.08 on the unit scale).
pub const CUT_SCORE_FLOOR: i64 = 80_000;

/// The decision on the first comparison, with no previous score: a cut
/// when the score is under the hard floor or under the similarity
/// threshold.
pub open spec fn spec_is_cut_first(score: int, similarity_threshold: int) -> bool {
    score < CUT_SCORE_FLOOR || score < similarity_threshold
}

/// The decision when a previous score exists: a cut when the score is
/// under the hard floor, or under the similarity threshold while the
/// previous score was above the previous-similarity threshold. The second
/// condition is the hysteresis: during gradual motion the previous score is
/// already low, so a low score alone does not flip the decision.
pub open spec fn spec_is_cut_next(
    score: int, prev_score: int, similarity_threshold: int, previous_similarity_threshold: int,
) -> bool {
    score < CUT_SCORE_FLOOR
        || (score < similarity_threshold && prev_score > previous_similarity_threshold)
}

/// Stateful cut detector: remembers the last similarity score per stream.
pub struct CutDetector {
    /// The score stored by the previous call, `None` before the first.
    pub previous_score: Option<i64>,
    /// The threshold below which a low score counts as a cut.
    pub similarity_threshold: i64,
    /// The threshold the previous score must exceed for a non-floor cut.
    pub previous_similarity_threshold: i64,
}

impl CutDetector {
    /// Creates a new cut detector with the two configurable thresholds.
    pub fn new(similarity_threshold: i64, previous_similarity_threshold: i64) -> (r: Self)
        ensures
            r.previous_score is None,
            r.similarity_threshold == similarity_threshold,
            r.previous_similarity_threshold == previous_similarity_threshold,
    {
        Self {
            previous_score: None,
            similarity_threshold,
            previous_similarity_threshold,
        }
    }

    /// Decides whether the score of the latest frame pair marks a cut, and
    /// stores the score as "previous" for the next call whatever the
    /// outcome.
    pub fn is_cut(&mut self, score: i64) -> (r: bool)
        ensures
            r == match old(self).previous_score {
                Some(prev) => spec_is_cut_next(
                    score as int, prev as int,
                    old(self).similarity_threshold as int,
                    old(self).previous_similarity_threshold as int),
                None => spec_is_cut_first(score as int, old(self).similarity_threshold as int),
            },
            final(self).previous_score == Some(score),
            final(self).similarity_threshold == old(self).similarity_threshold,
            final(self).previous_similarity_threshold == old(self).previous_similarity_threshold,
    {
        let is_cut = match self.previous_score {
            Some(prev_score) => {
                score < CUT_SCORE_FLOOR
                    || (score < self.similarity_threshold
                        && prev_score > self.previous_similarity_threshold)
            }
            None => score < CUT_SCORE_FLOOR || score < self.similarity_threshold,
        };
        self.previous_score = Some(score);
        is_cut
    }
}

/// A pair of identical frames is never a cut: with the score at
/// [`SCORE_ONE`] and thresholds no higher than that, both decision rules
/// say "no cut", whatever the previous score was.
pub proof fn lemma_identical_frames_never_cut(prev_score: int, similarity_threshold: int, previous_similarity_threshold: int)
    requires
        similarity_threshold <= SCORE_ONE as int,
    ensures
        !spec_is_cut_first(SCORE_ONE as int, similarity_threshold),
        !spec_is_cut_next(SCORE_ONE as int, prev_score, similarity_threshold, previous_similarity_threshold),
{
}

/// The hysteresis law. After a low previous score, a score between the two
/// thresholds is not a cut (the change hypothesis is suppressed); after a
/// high previous score, a score under the similarity threshold is a cut.
pub proof fn lemma_cut_hysteresis(
    score: int, prev_score: int, similarity_threshold: int, previous_similarity_threshold: int,
)
    requires
        CUT_SCORE_FLOOR as int <= score,
    ensures
        prev_score <= previous_similarity_threshold
            ==> !spec_is_cut_next(score, prev_score, similarity_threshold, previous_similarity_threshold),
        prev_score > previous_similarity_threshold && score < similarity_threshold
            ==> spec_is_cut_next(score, prev_score, similarity_threshold, previous_similarity_threshold),
{
}

} // verus!
