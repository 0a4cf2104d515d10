use vstd::prelude::*;
use crate::state::AchievementType;

verus! {

/// Notification of a successful agent registration.
#[derive(Clone, Debug)]
pub struct AgentRegistered {
    pub agent: u64,
    pub name: Vec<u8>,
    pub owner: u64,
}

/// Notification of a successful season creation.
#[derive(Clone, Copy, Debug)]
pub struct SeasonCreated {
    pub season_id: u64,
    pub entry_fee: u64,
    pub start_time: i64,
    pub end_time: i64,
}

/// Notification of a paid season entry, carrying the exact fee split.
#[derive(Clone, Copy, Debug)]
pub struct SeasonEntered {
    pub season_id: u64,
    pub agent: u64,
    pub player: u64,
    pub platform_fee: u64,
    pub prize_contribution: u64,
}

/// Notification of a committed prediction.
#[derive(Clone, Copy, Debug)]
pub struct PredictionSubmitted {
    pub agent: u64,
    pub season_id: u64,
    pub stake_amount: u64,
}

/// Notification of a successful reveal.
#[derive(Clone, Copy, Debug)]
pub struct PredictionRevealed {
    pub agent: u64,
    pub season_id: u64,
}

/// Notification of a resolution, carrying where the stake went.
#[derive(Clone, Copy, Debug)]
pub struct PredictionResolved {
    pub agent: u64,
    pub was_correct: bool,
    pub score_earned: u64,
    pub stake_transferred: u64,
}

/// Notification of an awarded badge.
#[derive(Clone, Copy, Debug)]
pub struct AchievementAwarded {
    pub agent: u64,
    pub achievement_type: AchievementType,
}

/// Notification of a season's prize distribution, carrying each share.
#[derive(Clone, Copy, Debug)]
pub struct PrizesDistributed {
    pub season_id: u64,
    pub total_pool: u64,
    pub first_place: u64,
    pub second_place: u64,
    pub third_place: u64,
}

/// Notification of an administrative treasury withdrawal.
#[derive(Clone, Copy, Debug)]
pub struct TreasuryWithdrawal {
    pub authority: u64,
    pub amount: u64,
    pub remaining_balance: u64,
}

} // verus!
