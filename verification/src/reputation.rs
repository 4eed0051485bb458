use vstd::prelude::*;

verus! {

/// Upper bound of the trust score; scores live in `[0, MAX_REPUTATION]`.
pub const MAX_REPUTATION: u16 = 1000;

/// Score a newly registered agent starts with: the neutral midpoint.
pub const INITIAL_REPUTATION: u16 = 500;

/// Points deducted when an assigned task is reported as failed.
pub const FAILURE_PENALTY: u16 = 50;

/// Largest single increase a successful completion can earn.
pub const MAX_SUCCESS_INCREASE: u16 = 100;

/// Highest meaningful performance score a completion report may carry.
pub const MAX_PERFORMANCE_SCORE: u8 = 100;

/// Increase earned by a successful completion: twice the performance
/// score, capped at `MAX_SUCCESS_INCREASE`.
pub open spec fn success_increase(performance_score: u8) -> int {
    if 2 * performance_score > MAX_SUCCESS_INCREASE {
        MAX_SUCCESS_INCREASE as int
    } else {
        2 * performance_score
    }
}

/// The trust score after settling one task outcome.
///
/// On success the capped increase is added and the sum clamped to
/// `MAX_REPUTATION`; on failure `FAILURE_PENALTY` is deducted with a
/// floor of zero, and the performance score is ignored.
pub open spec fn adjusted_reputation(old_score: u16, success: bool, performance_score: u8) -> int {
    if success {
        if old_score + success_increase(performance_score) > MAX_REPUTATION {
            MAX_REPUTATION as int
        } else {
            old_score + success_increase(performance_score)
        }
    } else {
        if old_score < FAILURE_PENALTY {
            0
        } else {
            old_score - FAILURE_PENALTY
        }
    }
}

/// Pure reputation adjustment: computes the score after one settled
/// outcome. Both branches are clamped, so the result never leaves the
/// valid range and the arithmetic never overflows.
pub fn adjust(old_score: u16, success: bool, performance_score: u8) -> (new_score: u16)
    requires
        old_score <= MAX_REPUTATION,
    ensures
        new_score == adjusted_reputation(old_score, success, performance_score),
        new_score <= MAX_REPUTATION,
        success && performance_score == MAX_PERFORMANCE_SCORE ==> new_score == vstd::math::min(
            old_score + MAX_SUCCESS_INCREASE,
            MAX_REPUTATION as int,
        ),
        success && performance_score == 0 ==> new_score == old_score,
        !success ==> new_score == vstd::math::max(old_score - FAILURE_PENALTY, 0),
{
    if success {
        let doubled: u16 = (performance_score as u16) * 2;
        let increase: u16 = if doubled > MAX_SUCCESS_INCREASE {
            MAX_SUCCESS_INCREASE
        } else {
            doubled
        };
        let raised: u16 = old_score + increase;
        if raised > MAX_REPUTATION {
            MAX_REPUTATION
        } else {
            raised
        }
    } else {
        if old_score < FAILURE_PENALTY {
            0
        } else {
            old_score - FAILURE_PENALTY
        }
    }
}

/// Every adjustment of a valid score lands back inside the valid range:
/// a reputation score can never leave `[0, MAX_REPUTATION]`.
pub proof fn lemma_adjust_in_range(old_score: u16, success: bool, performance_score: u8)
    requires
        old_score <= MAX_REPUTATION,
    ensures
        0 <= adjusted_reputation(old_score, success, performance_score) <= MAX_REPUTATION,
{
}

/// On either outcome the adjustment is monotone in the previous score:
/// settling the same outcome never reorders two agents' scores.
pub proof fn lemma_adjust_monotonic(
    lower: u16,
    higher: u16,
    success: bool,
    performance_score: u8,
)
    requires
        lower <= higher <= MAX_REPUTATION,
    ensures
        adjusted_reputation(lower, success, performance_score) <= adjusted_reputation(
            higher,
            success,
            performance_score,
        ),
{
}

} // verus!
