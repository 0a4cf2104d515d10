use vstd::prelude::*;

verus! {

/// Longest agent name the directory accepts, in bytes.
pub const MAX_NAME_LEN: usize = 32;

/// Longest agent endpoint the directory accepts, in bytes.
pub const MAX_ENDPOINT_LEN: usize = 128;

/// Length of a prediction commitment digest, in bytes.
pub const COMMITMENT_LEN: usize = 32;

/// Basis points in a whole: prize-pool splits are fractions of this.
pub const BPS_DENOMINATOR: u16 = 10000;

/// Performance tier of an agent, derived from its cumulative statistics.
#[derive(Clone, Copy, Debug, PartialEq, Eq, Structural)]
pub enum Rank {
    Bronze,
    Silver,
    Gold,
    Diamond,
    Legend,
}

/// Lifecycle of a season. `Active` seasons accept entries and predictions;
/// prize distribution moves a season to `Completed`, once, and it is never
/// reopened.
#[derive(Clone, Copy, Debug, PartialEq, Eq, Structural)]
pub enum SeasonStatus {
    Active,
    Completed,
    Cancelled,
}

/// Lifecycle of a prediction: strictly forward, each transition exactly once.
#[derive(Clone, Copy, Debug, PartialEq, Eq, Structural)]
pub enum PredictionStatus {
    Committed,
    Revealed,
    Resolved,
}

/// Reputation badges the achievement ledger can award.
#[derive(Clone, Copy, Debug, PartialEq, Eq, Structural)]
pub enum AchievementType {
    FirstWin,
    Streak3,
    Streak5,
    Streak10,
    RankSilver,
    RankGold,
    RankDiamond,
    RankLegend,
}

/// The singleton registry: global counters and configuration. Principals and
/// addresses are the opaque identifiers the ledger substrate derives; the
/// engine only stores and compares them.
#[derive(Clone, Copy, Debug)]
pub struct Arena {
    pub authority: u64,
    pub treasury: u64,
    pub total_seasons: u64,
    pub total_agents: u64,
    pub total_fees_collected: u64,
}

/// A participant's profile and cumulative performance statistics.
#[derive(Clone, Debug)]
pub struct Agent {
    pub owner: u64,
    pub name: Vec<u8>,
    pub endpoint: Vec<u8>,
    pub total_predictions: u64,
    pub correct_predictions: u64,
    pub streak: u16,
    pub best_streak: u16,
    pub rank: Rank,
    pub reputation_score: u32,
    pub joined_at: i64,
}

impl Agent {
    /// Invariants the directory keeps of every agent: bounded name and
    /// endpoint, no more correct predictions than predictions, and the
    /// current streak never above its high-water mark.
    pub open spec fn wf(self) -> bool {
        &&& self.name@.len() <= MAX_NAME_LEN
        &&& self.endpoint@.len() <= MAX_ENDPOINT_LEN
        &&& self.correct_predictions <= self.total_predictions
        &&& self.streak <= self.best_streak
    }
}

/// One time-boxed competition window and its prize-pool accounting.
#[derive(Clone, Copy, Debug)]
pub struct Season {
    pub id: u64,
    pub authority: u64,
    pub entry_fee: u64,
    pub start_time: i64,
    pub end_time: i64,
    pub prize_pool_bps: u16,
    pub total_entries: u64,
    pub total_pool: u64,
    pub status: SeasonStatus,
}

impl Season {
    /// A season's split is always a valid fraction.
    pub open spec fn wf(self) -> bool {
        self.prize_pool_bps <= BPS_DENOMINATOR
    }
}

/// One (season, agent) participation record. The substrate keys it by that
/// pair, so an agent holds at most one entry per season.
#[derive(Clone, Copy, Debug)]
pub struct SeasonEntry {
    pub season_id: u64,
    pub agent: u64,
    pub player: u64,
    pub score: u64,
    pub predictions_made: u64,
    pub predictions_correct: u64,
    pub rank: u16,
}

/// One submitted prediction: a 32-byte commitment, the revealed payload
/// (empty until reveal), the escrowed stake, and its status.
#[derive(Clone, Debug)]
pub struct Prediction {
    pub agent: u64,
    pub season_id: u64,
    pub prediction_hash: Vec<u8>,
    pub prediction_data: Vec<u8>,
    pub stake_amount: u64,
    pub submitted_at: i64,
    pub revealed_at: i64,
    pub resolved_at: i64,
    pub was_correct: bool,
    pub status: PredictionStatus,
}

/// Mathematical model of a `Prediction`: byte sequences in place of vectors.
pub struct PredictionView {
    pub agent: u64,
    pub season_id: u64,
    pub prediction_hash: Seq<u8>,
    pub prediction_data: Seq<u8>,
    pub stake_amount: u64,
    pub submitted_at: i64,
    pub revealed_at: i64,
    pub resolved_at: i64,
    pub was_correct: bool,
    pub status: PredictionStatus,
}

impl View for Prediction {
    type V = PredictionView;

    open spec fn view(&self) -> PredictionView {
        PredictionView {
            agent: self.agent,
            season_id: self.season_id,
            prediction_hash: self.prediction_hash@,
            prediction_data: self.prediction_data@,
            stake_amount: self.stake_amount,
            submitted_at: self.submitted_at,
            revealed_at: self.revealed_at,
            resolved_at: self.resolved_at,
            was_correct: self.was_correct,
            status: self.status,
        }
    }
}

impl Prediction {
    /// Invariants of every prediction: a commitment of the right length, and
    /// a payload that stays empty until the reveal.
    pub open spec fn wf(self) -> bool {
        &&& self.prediction_hash@.len() == COMMITMENT_LEN
        &&& self.status == PredictionStatus::Committed ==> self.prediction_data@.len() == 0
    }
}

/// A reputation badge, appended by the achievement ledger.
#[derive(Clone, Copy, Debug)]
pub struct Achievement {
    pub agent: u64,
    pub achievement_type: AchievementType,
    pub awarded_at: i64,
}

/// A substrate-held balance that one component alone is authorized to move:
/// the treasury, a season's pool vault, or a prediction's stake escrow.
#[derive(Clone, Copy, Debug)]
pub struct Vault {
    pub balance: u64,
}

impl Vault {
    /// A fresh, empty vault.
    pub fn new() -> (v: Vault)
        ensures
            v.balance == 0,
    {
        Vault { balance: 0 }
    }
}

/// A prize recipient as the distributor sees it: whether the destination is
/// a valid funded account, and its balance. A share whose recipient is not
/// funded stays in the season vault.
#[derive(Clone, Copy, Debug)]
pub struct Recipient {
    pub funded: bool,
    pub balance: u64,
}

/// The stake escrow discipline: until a prediction is resolved its escrow
/// vault holds exactly the staked amount; afterwards it is drained.
pub open spec fn escrow_ok(p: Prediction, escrow: Vault) -> bool {
    if p.status == PredictionStatus::Resolved {
        escrow.balance == 0
    } else {
        escrow.balance == p.stake_amount
    }
}

} // verus!
