//! The decision: is a log line anomalous, given its nearest neighbour?

use vstd::prelude::*;
use crate::score::Score;
use crate::store::Neighbor;

verus! {

/// The verdict on one log line.
#[derive(Clone, Debug, PartialEq, Eq)]
pub struct AnomalyVerdict {
    pub is_anomalous: bool,
    /// The similarity of the line to its nearest neighbour in the baseline;
    /// zero where the baseline is empty.
    pub score: Score,
    /// The line that was judged.
    pub log_entry: String,
}

/// An [`AnomalyVerdict`] as contracts see it.
pub struct VerdictView {
    pub is_anomalous: bool,
    pub score: Score,
    pub log_entry: Seq<char>,
}

impl View for AnomalyVerdict {
    type V = VerdictView;

    open spec fn view(&self) -> VerdictView {
        VerdictView { is_anomalous: self.is_anomalous, score: self.score, log_entry: self.log_entry@ }
    }
}

/// The verdict on `log_entry`, whose nearest neighbour has the similarity
/// `nearest`: normal if and only if there is a neighbour and its similarity is
/// at least the threshold.
pub open spec fn verdict(threshold: Score, log_entry: Seq<char>, nearest: Option<Score>) -> VerdictView {
    match nearest {
        None => VerdictView { is_anomalous: true, score: Score { bits: 0 }, log_entry },
        Some(score) => VerdictView { is_anomalous: !score.at_least(threshold), score, log_entry },
    }
}

/// The similarity of a neighbour, if there is one.
pub open spec fn score_of(nearest: Option<&Neighbor>) -> Option<Score> {
    match nearest {
        Some(neighbor) => Some(neighbor.score),
        None => None,
    }
}

/// Judges `log_entry` by its nearest neighbour.
pub fn decide(threshold: Score, log_entry: String, nearest: Option<&Neighbor>) -> (judged: AnomalyVerdict)
    ensures
        judged@ == verdict(threshold, log_entry@, score_of(nearest)),
{
    match nearest {
        None => AnomalyVerdict { is_anomalous: true, score: Score::zero(), log_entry },
        Some(neighbor) => AnomalyVerdict {
            is_anomalous: !neighbor.score.reaches(threshold),
            score: neighbor.score,
            log_entry,
        },
    }
}

/// A line whose neighbour's similarity is a number is anomalous exactly when
/// that similarity is below the threshold.
pub proof fn law_threshold(threshold: Score, log_entry: Seq<char>, score: Score)
    requires
        !threshold.nan(),
        !score.nan(),
    ensures
        verdict(threshold, log_entry, Some(score)).is_anomalous == score.below(threshold),
        verdict(threshold, log_entry, Some(score)).score == score,
{
}

/// A line without a neighbour is anomalous, with the score zero.
pub proof fn law_no_neighbor(threshold: Score, log_entry: Seq<char>)
    ensures
        verdict(threshold, log_entry, None).is_anomalous,
        verdict(threshold, log_entry, None).score.bits == 0,
{
}

/// A verdict repeats the line it judges.
pub proof fn law_verdict_echo(threshold: Score, log_entry: Seq<char>, nearest: Option<Score>)
    ensures
        verdict(threshold, log_entry, nearest).log_entry == log_entry,
{
}

} // verus!
