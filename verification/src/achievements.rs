use vstd::prelude::*;
use crate::errors::ErrorCode;
use crate::events::AchievementAwarded;
use crate::state::{Achievement, AchievementType, Agent};

verus! {

/// The fixed reputation each badge is worth.
pub open spec fn spec_reputation_delta(achievement_type: AchievementType) -> u32 {
    match achievement_type {
        AchievementType::FirstWin => 10,
        AchievementType::Streak3 => 25,
        AchievementType::Streak5 => 50,
        AchievementType::Streak10 => 100,
        AchievementType::RankSilver => 15,
        AchievementType::RankGold => 30,
        AchievementType::RankDiamond => 60,
        AchievementType::RankLegend => 100,
    }
}

/// Looks up the fixed reputation a badge is worth.
pub fn reputation_delta(achievement_type: AchievementType) -> (r: u32)
    ensures
        r == spec_reputation_delta(achievement_type),
{
    match achievement_type {
        AchievementType::FirstWin => 10,
        AchievementType::Streak3 => 25,
        AchievementType::Streak5 => 50,
        AchievementType::Streak10 => 100,
        AchievementType::RankSilver => 15,
        AchievementType::RankGold => 30,
        AchievementType::RankDiamond => 60,
        AchievementType::RankLegend => 100,
    }
}

/// Appends a badge to the achievement ledger and adds its fixed reputation
/// to the agent. Whether the agent actually satisfies the badge's criteria
/// is not validated here: the operation trusts its caller. Fails only where
/// the reputation score would no longer fit, with the agent untouched.
pub fn award_achievement(
    agent: &mut Agent,
    achievement_type: AchievementType,
    now: i64,
) -> (result: Result<(Achievement, AchievementAwarded), ErrorCode>)
    ensures
        match result {
            Ok((achievement, ev)) => {
                &&& old(agent).reputation_score + spec_reputation_delta(achievement_type)
                    <= u32::MAX
                &&& *final(agent) == (Agent {
                    reputation_score: (old(agent).reputation_score
                        + spec_reputation_delta(achievement_type)) as u32,
                    ..*old(agent)
                })
                &&& achievement == (Achievement {
                    agent: old(agent).owner,
                    achievement_type,
                    awarded_at: now,
                })
                &&& ev == (AchievementAwarded {
                    agent: old(agent).owner,
                    achievement_type,
                })
            },
            Err(e) => {
                &&& *final(agent) == *old(agent)
                &&& e == ErrorCode::Overflow
                &&& old(agent).reputation_score + spec_reputation_delta(achievement_type)
                    > u32::MAX
            },
        },
{
    let delta = reputation_delta(achievement_type);
    let reputation_score = match agent.reputation_score.checked_add(delta) {
        Some(s) => s,
        None => {
            return Err(ErrorCode::Overflow);
        },
    };
    let achievement = Achievement { agent: agent.owner, achievement_type, awarded_at: now };
    let ev = AchievementAwarded { agent: agent.owner, achievement_type };
    agent.reputation_score = reputation_score;
    Ok((achievement, ev))
}

} // verus!
