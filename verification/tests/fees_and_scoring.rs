use signal_wars::fees::{prize_shares, split_entry_fee};
use signal_wars::scoring::{calculate_score, compute_rank};
use signal_wars::state::Rank;

#[test]
fn fee_split_scenario() {
    // entry_fee = 1000 at 9000 bps keeps 900 for the pool, 100 for the platform.
    let (platform_fee, prize_contribution) = split_entry_fee(1000, 9000);
    assert_eq!(platform_fee, 100);
    assert_eq!(prize_contribution, 900);
}

#[test]
fn fee_split_sums_to_entry_fee() {
    for &fee in &[0u64, 1, 7, 999, 1000, 123_456_789, u64::MAX] {
        for &bps in &[0u16, 1, 2500, 5000, 9999, 10000] {
            let (platform_fee, prize_contribution) = split_entry_fee(fee, bps);
            assert_eq!(platform_fee as u128 + prize_contribution as u128, fee as u128);
        }
    }
}

#[test]
fn fee_split_all_to_pool() {
    let (platform_fee, prize_contribution) = split_entry_fee(1000, 10000);
    assert_eq!(platform_fee, 0);
    assert_eq!(prize_contribution, 1000);
}

#[test]
fn fee_split_all_to_platform() {
    let (platform_fee, prize_contribution) = split_entry_fee(1000, 0);
    assert_eq!(platform_fee, 1000);
    assert_eq!(prize_contribution, 0);
}

#[test]
fn fee_split_truncates_toward_pool() {
    // 33 * 5000 / 10000 = 16 (truncated); the pool gets the odd unit.
    let (platform_fee, prize_contribution) = split_entry_fee(33, 5000);
    assert_eq!(platform_fee, 16);
    assert_eq!(prize_contribution, 17);
}

#[test]
fn prize_shares_even_pool() {
    // A pool of 1000 splits exactly: 500 / 300 / 200, nothing retained.
    let (first, second, third) = prize_shares(1000);
    assert_eq!(first, 500);
    assert_eq!(second, 300);
    assert_eq!(third, 200);
    assert_eq!(1000 - first - second - third, 0);
}

#[test]
fn prize_shares_dust_retained() {
    // A pool of 999 pays 499 / 299 / 199 and retains 2 units of dust.
    let (first, second, third) = prize_shares(999);
    assert_eq!(first, 499);
    assert_eq!(second, 299);
    assert_eq!(third, 199);
    assert_eq!(999 - first - second - third, 2);
}

#[test]
fn score_scenario() {
    // stake = 100 at streak 3: 100 * (100 + 30) / 100 = 130.
    assert_eq!(calculate_score(100, 3), Some(130));
}

#[test]
fn score_streak_zero_returns_stake() {
    assert_eq!(calculate_score(250, 0), Some(250));
}

#[test]
fn score_truncates() {
    // 7 * (100 + 10) / 100 = 7.7, truncated to 7.
    assert_eq!(calculate_score(7, 1), Some(7));
}

#[test]
fn score_overflow_fails_closed() {
    assert_eq!(calculate_score(u64::MAX, 1), None);
}

#[test]
fn rank_table_tiers() {
    assert_eq!(compute_rank(100, 80, 0), Rank::Legend);
    assert_eq!(compute_rank(10, 7, 10), Rank::Diamond);
    assert_eq!(compute_rank(10, 6, 5), Rank::Gold);
    assert_eq!(compute_rank(10, 5, 3), Rank::Silver);
    assert_eq!(compute_rank(10, 5, 2), Rank::Bronze);
}

#[test]
fn rank_no_predictions_is_bronze() {
    assert_eq!(compute_rank(0, 0, 0), Rank::Bronze);
}

#[test]
fn rank_priority_order_wins() {
    // 80% accuracy with 50 correct hits the Legend rule before Diamond,
    // even with a streak that would satisfy every lower tier.
    assert_eq!(compute_rank(62, 50, 30), Rank::Legend);
    // 79% accuracy with a streak of 10 is Diamond, not Legend.
    assert_eq!(compute_rank(100, 79, 10), Rank::Diamond);
    // High accuracy alone without the streaks falls through to Bronze.
    assert_eq!(compute_rank(2, 2, 2), Rank::Bronze);
}
