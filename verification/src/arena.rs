use vstd::prelude::*;
use crate::errors::ErrorCode;
use crate::events::{AgentRegistered, SeasonCreated};
use crate::state::{
    Agent, Arena, Rank, Season, SeasonStatus, MAX_ENDPOINT_LEN, MAX_NAME_LEN, BPS_DENOMINATOR,
};

verus! {

/// Seconds in one day, for turning a season duration into an end time.
pub const SECONDS_PER_DAY: i64 = 86400;

/// Creates the global registry once, with its owning authority and the
/// fee-sink address, and every counter at zero. The substrate guarantees the
/// singleton: it rejects a second creation of the same keyed record.
pub fn initialize_arena(authority: u64, treasury: u64) -> (arena: Arena)
    ensures
        arena == (Arena {
            authority,
            treasury,
            total_seasons: 0,
            total_agents: 0,
            total_fees_collected: 0,
        }),
{
    Arena { authority, treasury, total_seasons: 0, total_agents: 0, total_fees_collected: 0 }
}

/// Registers a new agent against the registry. Fails on an over-long name or
/// endpoint, or on an agent counter that would no longer fit; on failure the
/// registry is untouched. The substrate keys the agent by its owner, so the
/// owner id doubles as the agent's identity.
pub fn register_agent(
    arena: &mut Arena,
    owner: u64,
    name: Vec<u8>,
    endpoint: Vec<u8>,
    now: i64,
) -> (result: Result<(Agent, AgentRegistered), ErrorCode>)
    ensures
        match result {
            Ok((agent, ev)) => {
                &&& name@.len() <= MAX_NAME_LEN
                &&& endpoint@.len() <= MAX_ENDPOINT_LEN
                &&& old(arena).total_agents < u64::MAX
                &&& agent.owner == owner
                &&& agent.name@ == name@
                &&& agent.endpoint@ == endpoint@
                &&& agent.total_predictions == 0
                &&& agent.correct_predictions == 0
                &&& agent.streak == 0
                &&& agent.best_streak == 0
                &&& agent.rank == Rank::Bronze
                &&& agent.reputation_score == 0
                &&& agent.joined_at == now
                &&& agent.wf()
                &&& *final(arena) == (Arena {
                    total_agents: (old(arena).total_agents + 1) as u64,
                    ..*old(arena)
                })
                &&& ev.agent == owner
                &&& ev.name@ == name@
                &&& ev.owner == owner
            },
            Err(e) => {
                &&& *final(arena) == *old(arena)
                &&& (e == ErrorCode::NameTooLong || e == ErrorCode::EndpointTooLong
                    || e == ErrorCode::Overflow)
                &&& (e == ErrorCode::NameTooLong <==> name@.len() > MAX_NAME_LEN)
                &&& (e == ErrorCode::EndpointTooLong <==> name@.len() <= MAX_NAME_LEN
                    && endpoint@.len() > MAX_ENDPOINT_LEN)
                &&& (e == ErrorCode::Overflow <==> name@.len() <= MAX_NAME_LEN
                    && endpoint@.len() <= MAX_ENDPOINT_LEN
                    && old(arena).total_agents == u64::MAX)
            },
        },
{
    if name.len() > MAX_NAME_LEN {
        return Err(ErrorCode::NameTooLong);
    }
    if endpoint.len() > MAX_ENDPOINT_LEN {
        return Err(ErrorCode::EndpointTooLong);
    }
    let total_agents = match arena.total_agents.checked_add(1) {
        Some(n) => n,
        None => {
            return Err(ErrorCode::Overflow);
        },
    };
    let ev = AgentRegistered { agent: owner, name: name.clone(), owner };
    let agent = Agent {
        owner,
        name,
        endpoint,
        total_predictions: 0,
        correct_predictions: 0,
        streak: 0,
        best_streak: 0,
        rank: Rank::Bronze,
        reputation_score: 0,
        joined_at: now,
    };
    arena.total_agents = total_agents;
    Ok((agent, ev))
}

/// Creates a new season under the next sequential id, running from now for
/// the given number of days, with the given entry fee and prize-pool split.
/// Fails on a split over 10000 basis points, or where the end time or the
/// season counter would no longer fit; on failure the registry is untouched.
pub fn create_season(
    arena: &mut Arena,
    authority: u64,
    entry_fee: u64,
    duration_days: u8,
    prize_pool_bps: u16,
    now: i64,
) -> (result: Result<(Season, SeasonCreated), ErrorCode>)
    ensures
        match result {
            Ok((season, ev)) => {
                &&& prize_pool_bps <= BPS_DENOMINATOR
                &&& old(arena).total_seasons < u64::MAX
                &&& now + (duration_days as int) * (SECONDS_PER_DAY as int) <= i64::MAX
                &&& season == (Season {
                    id: old(arena).total_seasons,
                    authority,
                    entry_fee,
                    start_time: now,
                    end_time: (now + (duration_days as int) * (SECONDS_PER_DAY as int)) as i64,
                    prize_pool_bps,
                    total_entries: 0,
                    total_pool: 0,
                    status: SeasonStatus::Active,
                })
                &&& season.wf()
                &&& *final(arena) == (Arena {
                    total_seasons: (old(arena).total_seasons + 1) as u64,
                    ..*old(arena)
                })
                &&& ev == (SeasonCreated {
                    season_id: season.id,
                    entry_fee,
                    start_time: now,
                    end_time: season.end_time,
                })
            },
            Err(e) => {
                &&& *final(arena) == *old(arena)
                &&& (e == ErrorCode::InvalidPrizeSplit || e == ErrorCode::Overflow)
                &&& (e == ErrorCode::InvalidPrizeSplit <==> prize_pool_bps > BPS_DENOMINATOR)
                &&& (e == ErrorCode::Overflow <==> prize_pool_bps <= BPS_DENOMINATOR
                    && (now + (duration_days as int) * (SECONDS_PER_DAY as int) > i64::MAX
                        || old(arena).total_seasons == u64::MAX))
            },
        },
{
    if prize_pool_bps > BPS_DENOMINATOR {
        return Err(ErrorCode::InvalidPrizeSplit);
    }
    let duration_secs: i64 = (duration_days as i64) * SECONDS_PER_DAY;
    let end_time = match now.checked_add(duration_secs) {
        Some(t) => t,
        None => {
            return Err(ErrorCode::Overflow);
        },
    };
    let total_seasons = match arena.total_seasons.checked_add(1) {
        Some(n) => n,
        None => {
            return Err(ErrorCode::Overflow);
        },
    };
    let season = Season {
        id: arena.total_seasons,
        authority,
        entry_fee,
        start_time: now,
        end_time,
        prize_pool_bps,
        total_entries: 0,
        total_pool: 0,
        status: SeasonStatus::Active,
    };
    let ev = SeasonCreated {
        season_id: season.id,
        entry_fee,
        start_time: now,
        end_time,
    };
    arena.total_seasons = total_seasons;
    Ok((season, ev))
}

} // verus!
