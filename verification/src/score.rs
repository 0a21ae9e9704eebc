//! The tally of right and wrong answers.

use vstd::prelude::*;

verus! {

/// How many questions were answered right and how many wrong.
#[derive(Debug, Clone, Copy, PartialEq, Eq, Structural)]
pub struct Score {
    pub correct: u64,
    pub incorrect: u64,
}

/// The share of right answers among `correct + incorrect` answers, in percent,
/// rounded down. It is defined only where there is at least one answer.
pub open spec fn percent(correct: int, incorrect: int) -> int
    recommends
        0 <= correct,
        0 <= incorrect,
        0 < correct + incorrect,
{
    100 * correct / (correct + incorrect)
}

/// The percentage lies between 0 and 100.
pub proof fn lemma_percent_bounded(correct: int, incorrect: int)
    requires
        0 <= correct,
        0 <= incorrect,
        0 < correct + incorrect,
    ensures
        0 <= percent(correct, incorrect) <= 100,
{
    let x: int = 100 * correct;
    let d: int = correct + incorrect;
    assert(0 <= x / d <= 100) by (nonlinear_arith)
        requires
            d > 0,
            0 <= x <= 100 * d,
    ;
}

/// The percentage is 100 exactly when no answer was wrong.
pub proof fn lemma_percent_full(correct: int, incorrect: int)
    requires
        0 <= correct,
        0 <= incorrect,
        0 < correct + incorrect,
    ensures
        percent(correct, incorrect) == 100 <==> incorrect == 0,
{
    let x: int = 100 * correct;
    let d: int = correct + incorrect;
    if incorrect == 0 {
        assert(x / d == 100) by (nonlinear_arith)
            requires
                d > 0,
                x == 100 * d,
        ;
    } else {
        assert(x / d < 100) by (nonlinear_arith)
            requires
                d > 0,
                0 <= x < 100 * d,
        ;
    }
}

/// With no right answer the percentage is 0.
pub proof fn lemma_percent_none_right(incorrect: int)
    requires
        0 < incorrect,
    ensures
        percent(0, incorrect) == 0,
{
    assert(0int / incorrect == 0) by (nonlinear_arith)
        requires
            incorrect > 0,
    ;
}

impl Score {
    /// How many answers the score counts.
    pub open spec fn answered(&self) -> int {
        self.correct + self.incorrect
    }

    /// The score before any answer.
    pub fn new() -> (score: Score)
        ensures
            score.correct == 0,
            score.incorrect == 0,
    {
        Score { correct: 0, incorrect: 0 }
    }

    /// Counts one more answer: a right one if `right`, else a wrong one.
    pub fn record(&mut self, right: bool)
        requires
            right ==> old(self).correct < u64::MAX,
            !right ==> old(self).incorrect < u64::MAX,
        ensures
            final(self).correct == old(self).correct + if right { 1int } else { 0 },
            final(self).incorrect == old(self).incorrect + if right { 0int } else { 1 },
    {
        if right {
            self.correct = self.correct + 1;
        } else {
            self.incorrect = self.incorrect + 1;
        }
    }

    /// The share of right answers in percent, rounded down; `None` where no
    /// question was answered, so that nothing is divided by zero.
    pub fn percentage(&self) -> (share: Option<u64>)
        ensures
            self.answered() == 0 <==> share is None,
            share matches Some(p) ==> p == percent(self.correct as int, self.incorrect as int),
    {
        let answered: u128 = self.correct as u128 + self.incorrect as u128;
        if answered == 0 {
            None
        } else {
            proof {
                lemma_percent_bounded(self.correct as int, self.incorrect as int);
            }
            Some((100 * (self.correct as u128) / answered) as u64)
        }
    }
}

} // verus!
