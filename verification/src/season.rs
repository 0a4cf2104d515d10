use vstd::prelude::*;
use crate::errors::ErrorCode;
use crate::events::{PrizesDistributed, SeasonEntered};
use crate::fees::{
    lemma_fee_split_exact, lemma_prize_shares_fit, prize_shares, spec_first_prize,
    spec_platform_fee, spec_prize_contribution, spec_second_prize, spec_third_prize,
    split_entry_fee,
};
use crate::state::{Agent, Arena, Recipient, Season, SeasonEntry, SeasonStatus, Vault};

verus! {

/// Whether every balance and counter a season entry touches still fits its
/// machine word. An entry that would not fit is rejected whole.
pub open spec fn enter_fits(season: Season, arena: Arena, season_vault: Vault, treasury: Vault) -> bool {
    let platform_fee = spec_platform_fee(season.entry_fee, season.prize_pool_bps);
    let prize_contribution = spec_prize_contribution(season.entry_fee, season.prize_pool_bps);
    &&& season_vault.balance + prize_contribution <= u64::MAX
    &&& treasury.balance + platform_fee <= u64::MAX
    &&& arena.total_fees_collected + platform_fee <= u64::MAX
    &&& season.total_entries < u64::MAX
    &&& season.total_pool + prize_contribution <= u64::MAX
}

/// Enters an agent into an active season. The full entry fee leaves the
/// player at once; the platform's cut moves on to the treasury and is
/// counted into the registry's collected fees, and the rest stays in the
/// season vault as the prize contribution. The fee is only split after the
/// full payment is covered, so a failed entry leaves no partial movement:
/// on any error every balance and record is untouched.
pub fn enter_season(
    season: &mut Season,
    arena: &mut Arena,
    agent: &Agent,
    player: u64,
    player_balance: &mut u64,
    season_vault: &mut Vault,
    treasury: &mut Vault,
    now: i64,
) -> (result: Result<(SeasonEntry, SeasonEntered), ErrorCode>)
    requires
        old(season).wf(),
    ensures
        match result {
            Ok((entry, ev)) => {
                let platform_fee = spec_platform_fee(
                    old(season).entry_fee, old(season).prize_pool_bps,
                );
                let prize_contribution = spec_prize_contribution(
                    old(season).entry_fee, old(season).prize_pool_bps,
                );
                &&& old(season).status == SeasonStatus::Active
                &&& now < old(season).end_time
                &&& *old(player_balance) >= old(season).entry_fee
                &&& enter_fits(*old(season), *old(arena), *old(season_vault), *old(treasury))
                &&& platform_fee + prize_contribution == old(season).entry_fee
                &&& *final(player_balance) == *old(player_balance) - old(season).entry_fee
                &&& final(season_vault).balance == old(season_vault).balance + prize_contribution
                &&& final(treasury).balance == old(treasury).balance + platform_fee
                &&& *final(arena) == (Arena {
                    total_fees_collected:
                        (old(arena).total_fees_collected + platform_fee) as u64,
                    ..*old(arena)
                })
                &&& *final(season) == (Season {
                    total_entries: (old(season).total_entries + 1) as u64,
                    total_pool: (old(season).total_pool + prize_contribution) as u64,
                    ..*old(season)
                })
                &&& entry == (SeasonEntry {
                    season_id: old(season).id,
                    agent: agent.owner,
                    player,
                    score: 0,
                    predictions_made: 0,
                    predictions_correct: 0,
                    rank: 0,
                })
                &&& ev == (SeasonEntered {
                    season_id: old(season).id,
                    agent: agent.owner,
                    player,
                    platform_fee: platform_fee as u64,
                    prize_contribution: prize_contribution as u64,
                })
                &&& *final(player_balance) + final(season_vault).balance
                    + final(treasury).balance
                    == *old(player_balance) + old(season_vault).balance
                        + old(treasury).balance
            },
            Err(e) => {
                &&& *final(season) == *old(season)
                &&& *final(arena) == *old(arena)
                &&& *final(player_balance) == *old(player_balance)
                &&& *final(season_vault) == *old(season_vault)
                &&& *final(treasury) == *old(treasury)
                &&& (e == ErrorCode::SeasonNotActive || e == ErrorCode::SeasonEnded
                    || e == ErrorCode::InsufficientFunds || e == ErrorCode::Overflow)
                &&& (e == ErrorCode::SeasonNotActive
                    <==> old(season).status != SeasonStatus::Active)
                &&& (e == ErrorCode::SeasonEnded
                    <==> old(season).status == SeasonStatus::Active
                        && now >= old(season).end_time)
                &&& (e == ErrorCode::InsufficientFunds
                    <==> old(season).status == SeasonStatus::Active
                        && now < old(season).end_time
                        && *old(player_balance) < old(season).entry_fee)
                &&& (e == ErrorCode::Overflow
                    <==> old(season).status == SeasonStatus::Active
                        && now < old(season).end_time
                        && *old(player_balance) >= old(season).entry_fee
                        && !enter_fits(
                            *old(season), *old(arena), *old(season_vault), *old(treasury),
                        ))
            },
        },
{
    if !matches!(season.status, SeasonStatus::Active) {
        return Err(ErrorCode::SeasonNotActive);
    }
    if now >= season.end_time {
        return Err(ErrorCode::SeasonEnded);
    }
    if *player_balance < season.entry_fee {
        return Err(ErrorCode::InsufficientFunds);
    }
    proof {
        lemma_fee_split_exact(season.entry_fee, season.prize_pool_bps);
    }
    let (platform_fee, prize_contribution) = split_entry_fee(
        season.entry_fee,
        season.prize_pool_bps,
    );
    let vault_balance = match season_vault.balance.checked_add(prize_contribution) {
        Some(b) => b,
        None => {
            return Err(ErrorCode::Overflow);
        },
    };
    let treasury_balance = match treasury.balance.checked_add(platform_fee) {
        Some(b) => b,
        None => {
            return Err(ErrorCode::Overflow);
        },
    };
    let total_fees = match arena.total_fees_collected.checked_add(platform_fee) {
        Some(f) => f,
        None => {
            return Err(ErrorCode::Overflow);
        },
    };
    let total_entries = match season.total_entries.checked_add(1) {
        Some(n) => n,
        None => {
            return Err(ErrorCode::Overflow);
        },
    };
    let total_pool = match season.total_pool.checked_add(prize_contribution) {
        Some(t) => t,
        None => {
            return Err(ErrorCode::Overflow);
        },
    };
    let entry = SeasonEntry {
        season_id: season.id,
        agent: agent.owner,
        player,
        score: 0,
        predictions_made: 0,
        predictions_correct: 0,
        rank: 0,
    };
    let ev = SeasonEntered {
        season_id: season.id,
        agent: agent.owner,
        player,
        platform_fee,
        prize_contribution,
    };
    *player_balance = *player_balance - season.entry_fee;
    season_vault.balance = vault_balance;
    treasury.balance = treasury_balance;
    arena.total_fees_collected = total_fees;
    season.total_entries = total_entries;
    season.total_pool = total_pool;
    Ok((entry, ev))
}

/// What a recipient is actually paid of a share: the full share where the
/// share is positive and the destination is a valid funded account, and
/// nothing otherwise — an unpaid share stays in the season vault.
pub open spec fn spec_paid(recipient: Recipient, share: int) -> int {
    if recipient.funded && share > 0 {
        share
    } else {
        0
    }
}

/// Whether every winner balance a distribution touches still fits its
/// machine word.
pub open spec fn distribute_fits(
    season: Season,
    first: Recipient,
    second: Recipient,
    third: Recipient,
) -> bool {
    &&& first.balance + spec_paid(first, spec_first_prize(season.total_pool)) <= u64::MAX
    &&& second.balance + spec_paid(second, spec_second_prize(season.total_pool)) <= u64::MAX
    &&& third.balance + spec_paid(third, spec_third_prize(season.total_pool)) <= u64::MAX
}

/// Distributes a season's prize pool to the three caller-supplied winners,
/// 50% / 30% / 20% with truncating division; the rounding remainder, and
/// any share whose recipient is not a valid funded destination, stays in
/// the vault. Only an Active season at or past its end time can be
/// distributed, and distribution completes the season — terminal, so no
/// season is ever distributed twice. On any error nothing changes.
pub fn distribute_prizes(
    season: &mut Season,
    season_vault: &mut Vault,
    first: &mut Recipient,
    second: &mut Recipient,
    third: &mut Recipient,
    now: i64,
) -> (result: Result<PrizesDistributed, ErrorCode>)
    requires
        old(season).status == SeasonStatus::Active
            ==> old(season_vault).balance == old(season).total_pool,
    ensures
        match result {
            Ok(ev) => {
                let pool = old(season).total_pool;
                let paid_first = spec_paid(*old(first), spec_first_prize(pool));
                let paid_second = spec_paid(*old(second), spec_second_prize(pool));
                let paid_third = spec_paid(*old(third), spec_third_prize(pool));
                &&& now >= old(season).end_time
                &&& old(season).status == SeasonStatus::Active
                &&& distribute_fits(*old(season), *old(first), *old(second), *old(third))
                &&& *final(season) == (Season {
                    status: SeasonStatus::Completed,
                    ..*old(season)
                })
                &&& final(first).balance == old(first).balance + paid_first
                &&& final(second).balance == old(second).balance + paid_second
                &&& final(third).balance == old(third).balance + paid_third
                &&& final(first).funded == old(first).funded
                &&& final(second).funded == old(second).funded
                &&& final(third).funded == old(third).funded
                &&& final(season_vault).balance
                    == old(season_vault).balance - (paid_first + paid_second + paid_third)
                &&& final(season_vault).balance + final(first).balance
                    + final(second).balance + final(third).balance
                    == old(season_vault).balance + old(first).balance + old(second).balance
                        + old(third).balance
                &&& ev == (PrizesDistributed {
                    season_id: old(season).id,
                    total_pool: pool,
                    first_place: spec_first_prize(pool) as u64,
                    second_place: spec_second_prize(pool) as u64,
                    third_place: spec_third_prize(pool) as u64,
                })
            },
            Err(e) => {
                &&& *final(season) == *old(season)
                &&& *final(season_vault) == *old(season_vault)
                &&& *final(first) == *old(first)
                &&& *final(second) == *old(second)
                &&& *final(third) == *old(third)
                &&& (e == ErrorCode::SeasonNotEnded || e == ErrorCode::InvalidSeasonStatus
                    || e == ErrorCode::Overflow)
                &&& (e == ErrorCode::SeasonNotEnded <==> now < old(season).end_time)
                &&& (e == ErrorCode::InvalidSeasonStatus
                    <==> now >= old(season).end_time
                        && old(season).status != SeasonStatus::Active)
                &&& (e == ErrorCode::Overflow
                    <==> now >= old(season).end_time
                        && old(season).status == SeasonStatus::Active
                        && !distribute_fits(
                            *old(season), *old(first), *old(second), *old(third),
                        ))
            },
        },
{
    if now < season.end_time {
        return Err(ErrorCode::SeasonNotEnded);
    }
    if !matches!(season.status, SeasonStatus::Active) {
        return Err(ErrorCode::InvalidSeasonStatus);
    }
    proof {
        lemma_prize_shares_fit(season.total_pool);
    }
    let (first_prize, second_prize, third_prize) = prize_shares(season.total_pool);
    let paid_first: u64 = if first.funded && first_prize > 0 { first_prize } else { 0 };
    let paid_second: u64 = if second.funded && second_prize > 0 { second_prize } else { 0 };
    let paid_third: u64 = if third.funded && third_prize > 0 { third_prize } else { 0 };
    let first_balance = match first.balance.checked_add(paid_first) {
        Some(b) => b,
        None => {
            return Err(ErrorCode::Overflow);
        },
    };
    let second_balance = match second.balance.checked_add(paid_second) {
        Some(b) => b,
        None => {
            return Err(ErrorCode::Overflow);
        },
    };
    let third_balance = match third.balance.checked_add(paid_third) {
        Some(b) => b,
        None => {
            return Err(ErrorCode::Overflow);
        },
    };
    let ev = PrizesDistributed {
        season_id: season.id,
        total_pool: season.total_pool,
        first_place: first_prize,
        second_place: second_prize,
        third_place: third_prize,
    };
    first.balance = first_balance;
    second.balance = second_balance;
    third.balance = third_balance;
    season_vault.balance = season_vault.balance - paid_first - paid_second - paid_third;
    season.status = SeasonStatus::Completed;
    Ok(ev)
}

} // verus!
