use vstd::prelude::*;
use vstd::arithmetic::div_mod::{
    lemma_div_is_ordered, lemma_div_multiples_vanish, lemma_div_pos_is_pos,
    lemma_fundamental_div_mod, lemma_mod_bound,
};
use vstd::arithmetic::mul::{lemma_mul_inequality, lemma_mul_nonnegative, lemma_mul_upper_bound};
use crate::state::BPS_DENOMINATOR;

verus! {

/// The platform's cut of one entry fee: the fraction of the fee, in basis
/// points, that is not retained for the prize pool, with integer division
/// truncating toward the pool.
pub open spec fn spec_platform_fee(entry_fee: u64, prize_pool_bps: u16) -> int {
    (entry_fee as int) * (BPS_DENOMINATOR as int - prize_pool_bps as int)
        / (BPS_DENOMINATOR as int)
}

/// The prize pool's cut of one entry fee: whatever the platform fee leaves.
pub open spec fn spec_prize_contribution(entry_fee: u64, prize_pool_bps: u16) -> int {
    entry_fee - spec_platform_fee(entry_fee, prize_pool_bps)
}

/// The platform fee never exceeds the entry fee, and never goes negative.
pub proof fn lemma_platform_fee_bounds(entry_fee: u64, prize_pool_bps: u16)
    requires
        prize_pool_bps <= BPS_DENOMINATOR,
    ensures
        0 <= spec_platform_fee(entry_fee, prize_pool_bps) <= entry_fee,
{
    let fee = entry_fee as int;
    let keep = BPS_DENOMINATOR as int - prize_pool_bps as int;
    let denom = BPS_DENOMINATOR as int;
    lemma_mul_nonnegative(fee, keep);
    lemma_div_pos_is_pos(fee * keep, denom);
    lemma_mul_inequality(keep, denom, fee);
    assert(fee * keep == keep * fee);
    assert(denom * fee == fee * denom);
    lemma_div_is_ordered(fee * keep, denom * fee, denom);
    lemma_div_multiples_vanish(fee, denom);
}

/// Law: the platform fee and the prize contribution partition the entry fee
/// exactly, for every fee and every split in [0, 10000] basis points.
pub proof fn lemma_fee_split_exact(entry_fee: u64, prize_pool_bps: u16)
    requires
        prize_pool_bps <= BPS_DENOMINATOR,
    ensures
        spec_platform_fee(entry_fee, prize_pool_bps)
            + spec_prize_contribution(entry_fee, prize_pool_bps) == entry_fee,
        0 <= spec_platform_fee(entry_fee, prize_pool_bps) <= entry_fee,
        0 <= spec_prize_contribution(entry_fee, prize_pool_bps) <= entry_fee,
{
    lemma_platform_fee_bounds(entry_fee, prize_pool_bps);
}

/// Splits one entry fee into the platform's cut and the prize pool's cut.
/// The two always sum to the fee exactly.
pub fn split_entry_fee(entry_fee: u64, prize_pool_bps: u16) -> (r: (u64, u64))
    requires
        prize_pool_bps <= BPS_DENOMINATOR,
    ensures
        r.0 == spec_platform_fee(entry_fee, prize_pool_bps),
        r.1 == spec_prize_contribution(entry_fee, prize_pool_bps),
        r.0 + r.1 == entry_fee,
{
    proof {
        lemma_fee_split_exact(entry_fee, prize_pool_bps);
        lemma_mul_upper_bound(
            entry_fee as int,
            u64::MAX as int,
            (BPS_DENOMINATOR - prize_pool_bps) as int,
            BPS_DENOMINATOR as int,
        );
    }
    let keep: u128 = (BPS_DENOMINATOR - prize_pool_bps) as u128;
    let platform_fee: u64 = ((entry_fee as u128) * keep / (BPS_DENOMINATOR as u128)) as u64;
    let prize_contribution: u64 = entry_fee - platform_fee;
    (platform_fee, prize_contribution)
}

/// The first-place share of a prize pool: half, rounded down.
pub open spec fn spec_first_prize(total_pool: u64) -> int {
    (total_pool as int) * 50 / 100
}

/// The second-place share of a prize pool: three tenths, rounded down.
pub open spec fn spec_second_prize(total_pool: u64) -> int {
    (total_pool as int) * 30 / 100
}

/// The third-place share of a prize pool: one fifth, rounded down.
pub open spec fn spec_third_prize(total_pool: u64) -> int {
    (total_pool as int) * 20 / 100
}

/// The three prize shares never exceed the pool together; what rounding
/// leaves over stays behind as dust.
pub proof fn lemma_prize_shares_fit(total_pool: u64)
    ensures
        0 <= spec_first_prize(total_pool),
        0 <= spec_second_prize(total_pool),
        0 <= spec_third_prize(total_pool),
        spec_first_prize(total_pool) + spec_second_prize(total_pool)
            + spec_third_prize(total_pool) <= total_pool,
{
    let p = total_pool as int;
    lemma_div_pos_is_pos(p * 50, 100);
    lemma_div_pos_is_pos(p * 30, 100);
    lemma_div_pos_is_pos(p * 20, 100);
    lemma_fundamental_div_mod(p * 50, 100);
    lemma_fundamental_div_mod(p * 30, 100);
    lemma_fundamental_div_mod(p * 20, 100);
    lemma_mod_bound(p * 50, 100);
    lemma_mod_bound(p * 30, 100);
    lemma_mod_bound(p * 20, 100);
    assert(p * 50 + p * 30 + p * 20 == 100 * p);
}

/// Computes the 50% / 30% / 20% shares of a season's prize pool. Integer
/// division truncates each share; the remainder is retained, not paid out.
pub fn prize_shares(total_pool: u64) -> (r: (u64, u64, u64))
    ensures
        r.0 == spec_first_prize(total_pool),
        r.1 == spec_second_prize(total_pool),
        r.2 == spec_third_prize(total_pool),
        r.0 + r.1 + r.2 <= total_pool,
{
    proof {
        lemma_prize_shares_fit(total_pool);
    }
    let pool: u128 = total_pool as u128;
    let first: u64 = (pool * 50 / 100) as u64;
    let second: u64 = (pool * 30 / 100) as u64;
    let third: u64 = (pool * 20 / 100) as u64;
    (first, second, third)
}

} // verus!
