use vstd::prelude::*;
use vstd::arithmetic::div_mod::{lemma_div_is_ordered, lemma_div_multiples_vanish, lemma_div_pos_is_pos};
use vstd::arithmetic::mul::{lemma_mul_inequality, lemma_mul_nonnegative, lemma_mul_upper_bound};
use crate::state::{Agent, Rank};

verus! {

/// The score a correct prediction earns: the stake, compounded by a 10%
/// bonus per consecutive win, with integer division truncating. A streak of
/// 0 earns exactly the stake.
pub open spec fn spec_score_delta(stake: u64, streak: u16) -> int {
    (stake as int) * (100 + (streak as int) * 10) / 100
}

/// An agent's accuracy in whole percent, rounded down; 0 before the first
/// resolution.
pub open spec fn spec_accuracy(total_predictions: u64, correct_predictions: u64) -> int {
    if total_predictions > 0 {
        (correct_predictions as int) * 100 / (total_predictions as int)
    } else {
        0
    }
}

/// The ranking table, evaluated in priority order: the first matching tier
/// wins, and an agent that matches none is Bronze.
pub open spec fn spec_rank(
    total_predictions: u64,
    correct_predictions: u64,
    best_streak: u16,
) -> Rank {
    let accuracy = spec_accuracy(total_predictions, correct_predictions);
    if accuracy >= 80 && correct_predictions >= 50 {
        Rank::Legend
    } else if accuracy >= 70 && best_streak >= 10 {
        Rank::Diamond
    } else if accuracy >= 60 && best_streak >= 5 {
        Rank::Gold
    } else if accuracy >= 50 && best_streak >= 3 {
        Rank::Silver
    } else {
        Rank::Bronze
    }
}

/// Accuracy is always a percentage: between 0 and 100.
pub proof fn lemma_accuracy_bounded(total_predictions: u64, correct_predictions: u64)
    requires
        correct_predictions <= total_predictions,
    ensures
        0 <= spec_accuracy(total_predictions, correct_predictions) <= 100,
{
    if total_predictions > 0 {
        let total = total_predictions as int;
        let correct = correct_predictions as int;
        lemma_mul_nonnegative(correct, 100);
        lemma_div_pos_is_pos(correct * 100, total);
        lemma_mul_inequality(correct, total, 100);
        lemma_div_is_ordered(correct * 100, total * 100, total);
        lemma_div_multiples_vanish(100, total);
        assert(total * 100 == 100 * total);
    }
}

/// Computes the score a correct prediction earns from the stake and the new
/// streak, or nothing where the result would no longer fit.
pub fn calculate_score(stake: u64, streak: u16) -> (r: Option<u64>)
    ensures
        match r {
            Some(v) => v == spec_score_delta(stake, streak),
            None => spec_score_delta(stake, streak) > u64::MAX,
        },
{
    let multiplier: u128 = 100 + (streak as u128) * 10;
    proof {
        lemma_mul_upper_bound(stake as int, u64::MAX as int, multiplier as int, 655450);
        lemma_mul_nonnegative(stake as int, multiplier as int);
        lemma_div_pos_is_pos((stake as int) * (multiplier as int), 100);
    }
    let wide: u128 = (stake as u128) * multiplier / 100;
    if wide > u64::MAX as u128 {
        None
    } else {
        Some(wide as u64)
    }
}

/// Computes an agent's tier from its cumulative statistics, exactly as the
/// ranking table states it.
pub fn compute_rank(
    total_predictions: u64,
    correct_predictions: u64,
    best_streak: u16,
) -> (r: Rank)
    requires
        correct_predictions <= total_predictions,
    ensures
        r == spec_rank(total_predictions, correct_predictions, best_streak),
{
    proof {
        lemma_accuracy_bounded(total_predictions, correct_predictions);
    }
    let accuracy: u64 = if total_predictions > 0 {
        ((correct_predictions as u128) * 100 / (total_predictions as u128)) as u64
    } else {
        0
    };
    if accuracy >= 80 && correct_predictions >= 50 {
        Rank::Legend
    } else if accuracy >= 70 && best_streak >= 10 {
        Rank::Diamond
    } else if accuracy >= 60 && best_streak >= 5 {
        Rank::Gold
    } else if accuracy >= 50 && best_streak >= 3 {
        Rank::Silver
    } else {
        Rank::Bronze
    }
}

/// Recomputes an agent's tier in place from its current statistics; nothing
/// else about the agent changes.
pub fn update_rank(agent: &mut Agent)
    requires
        old(agent).correct_predictions <= old(agent).total_predictions,
    ensures
        final(agent).rank == spec_rank(
            old(agent).total_predictions,
            old(agent).correct_predictions,
            old(agent).best_streak,
        ),
        final(agent).owner == old(agent).owner,
        final(agent).name == old(agent).name,
        final(agent).endpoint == old(agent).endpoint,
        final(agent).total_predictions == old(agent).total_predictions,
        final(agent).correct_predictions == old(agent).correct_predictions,
        final(agent).streak == old(agent).streak,
        final(agent).best_streak == old(agent).best_streak,
        final(agent).reputation_score == old(agent).reputation_score,
        final(agent).joined_at == old(agent).joined_at,
{
    agent.rank = compute_rank(
        agent.total_predictions,
        agent.correct_predictions,
        agent.best_streak,
    );
}

} // verus!
