use vstd::prelude::*;
use crate::errors::ErrorCode;
use crate::events::{PredictionResolved, PredictionRevealed, PredictionSubmitted};
use crate::scoring::{calculate_score, spec_rank, spec_score_delta, update_rank};
use crate::state::{
    escrow_ok, Agent, Arena, Prediction, PredictionStatus, PredictionView, Season, SeasonEntry,
    SeasonStatus, Vault, COMMITMENT_LEN,
};

verus! {

/// The SHA-256 digest of a byte sequence, as the ledger substrate's hasher
/// computes it. The digest is a function of the input bytes alone; nothing
/// here states which bytes it is, only that reveal verification uses the
/// same digest everywhere.
pub uninterp spec fn sha256_of(data: Seq<u8>) -> Seq<u8>;

/// Relies on anchor_lang::solana_program::hash::hash: the SHA-256 digest of
/// the input bytes, 32 bytes long, depending on the input alone.
#[verifier::external_body]
fn sha256(data: &Vec<u8>) -> (r: Vec<u8>)
    ensures
        r@ == sha256_of(data@),
        r@.len() == COMMITMENT_LEN,
{
    anchor_lang::solana_program::hash::hash(data.as_slice()).to_bytes().to_vec()
}

/// Compares two byte vectors for equality of their contents.
pub fn bytes_eq(a: &Vec<u8>, b: &Vec<u8>) -> (r: bool)
    ensures
        r <==> a@ == b@,
{
    if a.len() != b.len() {
        return false;
    }
    let mut i: usize = 0;
    while i < a.len()
        invariant
            i <= a@.len(),
            a@.len() == b@.len(),
            forall|j: int| 0 <= j < i ==> a@[j] == b@[j],
        decreases a@.len() - i,
    {
        if a[i] != b[i] {
            return false;
        }
        i = i + 1;
    }
    proof {
        assert(a@ =~= b@);
    }
    true
}

/// Commits a new prediction against an active season: records the 32-byte
/// commitment, and escrows the stake out of the player's balance into a
/// fresh prediction-scoped vault. The substrate keys the record by (agent,
/// season, the agent's running prediction count), so repeated submissions
/// never collide. Fails on an inactive season or a stake the player cannot
/// cover; on failure the player's balance is untouched.
pub fn submit_prediction(
    season: &Season,
    agent: &Agent,
    player: u64,
    player_balance: &mut u64,
    prediction_hash: Vec<u8>,
    stake_amount: u64,
    now: i64,
) -> (result: Result<(Prediction, Vault, PredictionSubmitted), ErrorCode>)
    requires
        prediction_hash@.len() == COMMITMENT_LEN,
    ensures
        match result {
            Ok((p, escrow, ev)) => {
                &&& season.status == SeasonStatus::Active
                &&& *old(player_balance) >= stake_amount
                &&& p@ == (PredictionView {
                    agent: agent.owner,
                    season_id: season.id,
                    prediction_hash: prediction_hash@,
                    prediction_data: Seq::<u8>::empty(),
                    stake_amount,
                    submitted_at: now,
                    revealed_at: 0,
                    resolved_at: 0,
                    was_correct: false,
                    status: PredictionStatus::Committed,
                })
                &&& p.wf()
                &&& escrow.balance == stake_amount
                &&& escrow_ok(p, escrow)
                &&& *final(player_balance) == *old(player_balance) - stake_amount
                &&& ev == (PredictionSubmitted {
                    agent: agent.owner,
                    season_id: season.id,
                    stake_amount,
                })
            },
            Err(e) => {
                &&& *final(player_balance) == *old(player_balance)
                &&& (e == ErrorCode::SeasonNotActive || e == ErrorCode::InsufficientFunds)
                &&& (e == ErrorCode::SeasonNotActive <==> season.status != SeasonStatus::Active)
                &&& (e == ErrorCode::InsufficientFunds <==> season.status == SeasonStatus::Active
                    && *old(player_balance) < stake_amount)
            },
        },
{
    if !matches!(season.status, SeasonStatus::Active) {
        return Err(ErrorCode::SeasonNotActive);
    }
    if *player_balance < stake_amount {
        return Err(ErrorCode::InsufficientFunds);
    }
    let ev = PredictionSubmitted { agent: agent.owner, season_id: season.id, stake_amount };
    let p = Prediction {
        agent: agent.owner,
        season_id: season.id,
        prediction_hash,
        prediction_data: Vec::new(),
        stake_amount,
        submitted_at: now,
        revealed_at: 0,
        resolved_at: 0,
        was_correct: false,
        status: PredictionStatus::Committed,
    };
    let escrow = Vault { balance: stake_amount };
    *player_balance = *player_balance - stake_amount;
    Ok((p, escrow, ev))
}

/// The reveal transition on the prediction record: only a Committed
/// prediction can be revealed, and only by the exact committed payload —
/// one whose digest equals the stored commitment bit for bit.
pub open spec fn spec_reveal(
    p: PredictionView,
    data: Seq<u8>,
    digest: Seq<u8>,
    now: i64,
) -> Result<PredictionView, ErrorCode> {
    if p.status != PredictionStatus::Committed {
        Result::Err(ErrorCode::InvalidPredictionStatus)
    } else if digest != p.prediction_hash {
        Result::Err(ErrorCode::HashMismatch)
    } else {
        Result::Ok(PredictionView {
            prediction_data: data,
            revealed_at: now,
            status: PredictionStatus::Revealed,
            ..p
        })
    }
}

/// Applies a reveal whose digest has already been computed: checks the
/// status gate and the commitment, then stores the payload and moves the
/// prediction to Revealed. Everything it does is stated by `spec_reveal`.
pub fn apply_reveal(
    p: &mut Prediction,
    prediction_data: Vec<u8>,
    digest: &Vec<u8>,
    now: i64,
) -> (result: Result<PredictionRevealed, ErrorCode>)
    ensures
        match result {
            Ok(ev) => {
                &&& spec_reveal(old(p)@, prediction_data@, digest@, now)
                    == Result::<PredictionView, ErrorCode>::Ok(final(p)@)
                &&& final(p).status == PredictionStatus::Revealed
                &&& ev == (PredictionRevealed {
                    agent: old(p).agent,
                    season_id: old(p).season_id,
                })
            },
            Err(e) => {
                &&& spec_reveal(old(p)@, prediction_data@, digest@, now)
                    == Result::<PredictionView, ErrorCode>::Err(e)
                &&& *final(p) == *old(p)
            },
        },
{
    if !matches!(p.status, PredictionStatus::Committed) {
        return Err(ErrorCode::InvalidPredictionStatus);
    }
    if !bytes_eq(digest, &p.prediction_hash) {
        return Err(ErrorCode::HashMismatch);
    }
    p.prediction_data = prediction_data;
    p.revealed_at = now;
    p.status = PredictionStatus::Revealed;
    Ok(PredictionRevealed { agent: p.agent, season_id: p.season_id })
}

/// Reveals a prediction: recomputes the digest of the offered payload and
/// requires it to equal the stored commitment, so the committer cannot alter
/// the prediction after committing. Succeeds exactly when the prediction is
/// still Committed and the payload matches; on failure nothing changes.
pub fn reveal_prediction(
    p: &mut Prediction,
    prediction_data: Vec<u8>,
    now: i64,
) -> (result: Result<PredictionRevealed, ErrorCode>)
    ensures
        match result {
            Ok(ev) => {
                &&& spec_reveal(old(p)@, prediction_data@, sha256_of(prediction_data@), now)
                    == Result::<PredictionView, ErrorCode>::Ok(final(p)@)
                &&& old(p).status == PredictionStatus::Committed
                &&& sha256_of(prediction_data@) == old(p).prediction_hash@
                &&& final(p).status == PredictionStatus::Revealed
                &&& ev == (PredictionRevealed {
                    agent: old(p).agent,
                    season_id: old(p).season_id,
                })
            },
            Err(e) => {
                &&& spec_reveal(old(p)@, prediction_data@, sha256_of(prediction_data@), now)
                    == Result::<PredictionView, ErrorCode>::Err(e)
                &&& *final(p) == *old(p)
            },
        },
{
    let digest = sha256(&prediction_data);
    apply_reveal(p, prediction_data, &digest, now)
}

/// The resolution transition on the prediction record: only a Revealed
/// prediction can be resolved, and resolution is terminal.
pub open spec fn spec_resolve(
    p: PredictionView,
    was_correct: bool,
    now: i64,
) -> Result<PredictionView, ErrorCode> {
    if p.status != PredictionStatus::Revealed {
        Result::Err(ErrorCode::InvalidPredictionStatus)
    } else {
        Result::Ok(PredictionView {
            was_correct,
            resolved_at: now,
            status: PredictionStatus::Resolved,
            ..p
        })
    }
}

/// Whether every counter, score and balance a resolution touches still fits
/// its machine word. A resolution that would not fit is rejected whole.
pub open spec fn resolve_fits(
    p: Prediction,
    agent: Agent,
    entry: SeasonEntry,
    arena: Arena,
    treasury: Vault,
    player_balance: u64,
    was_correct: bool,
) -> bool {
    &&& agent.total_predictions < u64::MAX
    &&& entry.predictions_made < u64::MAX
    &&& if was_correct {
        &&& agent.correct_predictions < u64::MAX
        &&& agent.streak < u16::MAX
        &&& entry.predictions_correct < u64::MAX
        &&& spec_score_delta(p.stake_amount, (agent.streak + 1) as u16) <= u64::MAX
        &&& entry.score + spec_score_delta(p.stake_amount, (agent.streak + 1) as u16) <= u64::MAX
        &&& player_balance + p.stake_amount <= u64::MAX
    } else {
        &&& treasury.balance + p.stake_amount <= u64::MAX
        &&& arena.total_fees_collected + p.stake_amount <= u64::MAX
    }
}

/// The agent's statistics after a resolution: the prediction count always
/// grows by one; a correct resolution grows the correct count and the
/// streak, raises the high-water mark where exceeded, and recomputes the
/// rank; an incorrect one resets the streak to exactly 0 and touches nothing
/// else.
pub open spec fn spec_agent_after_resolve(a: Agent, was_correct: bool) -> Agent {
    if was_correct {
        let streak = (a.streak + 1) as u16;
        let best = if streak > a.best_streak { streak } else { a.best_streak };
        Agent {
            total_predictions: (a.total_predictions + 1) as u64,
            correct_predictions: (a.correct_predictions + 1) as u64,
            streak,
            best_streak: best,
            rank: spec_rank(
                (a.total_predictions + 1) as u64,
                (a.correct_predictions + 1) as u64,
                best,
            ),
            ..a
        }
    } else {
        Agent { total_predictions: (a.total_predictions + 1) as u64, streak: 0, ..a }
    }
}

/// The season entry after a resolution: one more prediction made; on a
/// correct one, one more correct and the streak-compounded score added.
pub open spec fn spec_entry_after_resolve(
    e: SeasonEntry,
    stake: u64,
    new_streak: u16,
    was_correct: bool,
) -> SeasonEntry {
    if was_correct {
        SeasonEntry {
            predictions_made: (e.predictions_made + 1) as u64,
            predictions_correct: (e.predictions_correct + 1) as u64,
            score: (e.score + spec_score_delta(stake, new_streak)) as u64,
            ..e
        }
    } else {
        SeasonEntry { predictions_made: (e.predictions_made + 1) as u64, ..e }
    }
}

/// Resolves a revealed prediction, as the designated resolving authority.
/// The status gate is checked first and is the only thing that makes
/// resolution one-shot: a prediction not in Revealed is rejected untouched.
/// On a correct resolution the escrowed stake returns to the player and the
/// agent's score, streak and rank grow; on an incorrect one the streak
/// resets and the stake is forfeited to the treasury, counted into the
/// registry's collected fees. Either way the escrow is drained exactly once.
///
/// The payout policy is a deployment choice and this deployment fixes it
/// explicitly: a correct prediction returns exactly the staked principal
/// (no doubling), and a forfeited stake is routed to the treasury, never
/// burned into an unaccounted vault.
pub fn resolve_prediction(
    p: &mut Prediction,
    agent: &mut Agent,
    entry: &mut SeasonEntry,
    arena: &mut Arena,
    escrow: &mut Vault,
    treasury: &mut Vault,
    player_balance: &mut u64,
    was_correct: bool,
    authority: u64,
    now: i64,
) -> (result: Result<PredictionResolved, ErrorCode>)
    requires
        authority == old(arena).authority,
        old(agent).wf(),
        escrow_ok(*old(p), *old(escrow)),
    ensures
        match result {
            Ok(ev) => {
                &&& old(p).status == PredictionStatus::Revealed
                &&& resolve_fits(
                    *old(p), *old(agent), *old(entry), *old(arena), *old(treasury),
                    *old(player_balance), was_correct,
                )
                &&& spec_resolve(old(p)@, was_correct, now)
                    == Result::<PredictionView, ErrorCode>::Ok(final(p)@)
                &&& *final(agent) == spec_agent_after_resolve(*old(agent), was_correct)
                &&& final(agent).wf()
                &&& final(agent).best_streak >= old(agent).best_streak
                &&& (was_correct ==> final(agent).streak == old(agent).streak + 1)
                &&& (!was_correct ==> final(agent).streak == 0)
                &&& *final(entry) == spec_entry_after_resolve(
                    *old(entry), old(p).stake_amount, final(agent).streak, was_correct,
                )
                &&& final(escrow).balance == 0
                &&& escrow_ok(*final(p), *final(escrow))
                &&& (if was_correct {
                    &&& *final(player_balance)
                        == *old(player_balance) + old(p).stake_amount
                    &&& *final(treasury) == *old(treasury)
                    &&& *final(arena) == *old(arena)
                } else {
                    &&& *final(player_balance) == *old(player_balance)
                    &&& final(treasury).balance
                        == old(treasury).balance + old(p).stake_amount
                    &&& *final(arena) == (Arena {
                        total_fees_collected:
                            (old(arena).total_fees_collected + old(p).stake_amount) as u64,
                        ..*old(arena)
                    })
                })
                &&& ev == (PredictionResolved {
                    agent: old(p).agent,
                    was_correct,
                    score_earned: if was_correct { final(entry).score } else { 0 },
                    stake_transferred: if was_correct { old(p).stake_amount } else { 0 },
                })
            },
            Err(e) => {
                &&& *final(p) == *old(p)
                &&& *final(agent) == *old(agent)
                &&& *final(entry) == *old(entry)
                &&& *final(arena) == *old(arena)
                &&& *final(escrow) == *old(escrow)
                &&& *final(treasury) == *old(treasury)
                &&& *final(player_balance) == *old(player_balance)
                &&& (e == ErrorCode::InvalidPredictionStatus || e == ErrorCode::Overflow)
                &&& (e == ErrorCode::InvalidPredictionStatus
                    <==> old(p).status != PredictionStatus::Revealed)
                &&& (e == ErrorCode::Overflow
                    <==> old(p).status == PredictionStatus::Revealed && !resolve_fits(
                        *old(p), *old(agent), *old(entry), *old(arena), *old(treasury),
                        *old(player_balance), was_correct,
                    ))
            },
        },
{
    if !matches!(p.status, PredictionStatus::Revealed) {
        return Err(ErrorCode::InvalidPredictionStatus);
    }
    let total_predictions = match agent.total_predictions.checked_add(1) {
        Some(n) => n,
        None => {
            return Err(ErrorCode::Overflow);
        },
    };
    let predictions_made = match entry.predictions_made.checked_add(1) {
        Some(n) => n,
        None => {
            return Err(ErrorCode::Overflow);
        },
    };
    if was_correct {
        let correct_predictions = match agent.correct_predictions.checked_add(1) {
            Some(n) => n,
            None => {
                return Err(ErrorCode::Overflow);
            },
        };
        let streak = match agent.streak.checked_add(1) {
            Some(n) => n,
            None => {
                return Err(ErrorCode::Overflow);
            },
        };
        let predictions_correct = match entry.predictions_correct.checked_add(1) {
            Some(n) => n,
            None => {
                return Err(ErrorCode::Overflow);
            },
        };
        let delta = match calculate_score(p.stake_amount, streak) {
            Some(d) => d,
            None => {
                return Err(ErrorCode::Overflow);
            },
        };
        let score = match entry.score.checked_add(delta) {
            Some(s) => s,
            None => {
                return Err(ErrorCode::Overflow);
            },
        };
        let returned = match (*player_balance).checked_add(p.stake_amount) {
            Some(b) => b,
            None => {
                return Err(ErrorCode::Overflow);
            },
        };
        p.was_correct = true;
        p.resolved_at = now;
        p.status = PredictionStatus::Resolved;
        agent.total_predictions = total_predictions;
        agent.correct_predictions = correct_predictions;
        agent.streak = streak;
        if streak > agent.best_streak {
            agent.best_streak = streak;
        }
        update_rank(agent);
        entry.predictions_made = predictions_made;
        entry.predictions_correct = predictions_correct;
        entry.score = score;
        escrow.balance = escrow.balance - p.stake_amount;
        *player_balance = returned;
        Ok(PredictionResolved {
            agent: p.agent,
            was_correct: true,
            score_earned: entry.score,
            stake_transferred: p.stake_amount,
        })
    } else {
        let treasury_balance = match treasury.balance.checked_add(p.stake_amount) {
            Some(b) => b,
            None => {
                return Err(ErrorCode::Overflow);
            },
        };
        let total_fees = match arena.total_fees_collected.checked_add(p.stake_amount) {
            Some(f) => f,
            None => {
                return Err(ErrorCode::Overflow);
            },
        };
        p.was_correct = false;
        p.resolved_at = now;
        p.status = PredictionStatus::Resolved;
        agent.total_predictions = total_predictions;
        agent.streak = 0;
        entry.predictions_made = predictions_made;
        escrow.balance = escrow.balance - p.stake_amount;
        treasury.balance = treasury_balance;
        arena.total_fees_collected = total_fees;
        Ok(PredictionResolved {
            agent: p.agent,
            was_correct: false,
            score_earned: 0,
            stake_transferred: 0,
        })
    }
}

/// Law: the commit binds the reveal. Against a Committed prediction, a
/// payload whose digest differs from the stored commitment always fails with
/// HashMismatch; the exact committed payload succeeds, and any further
/// reveal of the result — whatever its payload — fails with
/// InvalidPredictionStatus.
pub proof fn lemma_commit_reveal_binding(
    p: PredictionView,
    data: Seq<u8>,
    digest: Seq<u8>,
    now: i64,
    data2: Seq<u8>,
    digest2: Seq<u8>,
    now2: i64,
)
    requires
        p.status == PredictionStatus::Committed,
    ensures
        digest != p.prediction_hash ==> spec_reveal(p, data, digest, now)
            == Result::<PredictionView, ErrorCode>::Err(ErrorCode::HashMismatch),
        digest == p.prediction_hash ==> spec_reveal(p, data, digest, now)
            == Result::<PredictionView, ErrorCode>::Ok(spec_reveal(p, data, digest, now)->Ok_0),
        digest == p.prediction_hash ==> spec_reveal(
            spec_reveal(p, data, digest, now)->Ok_0, data2, digest2, now2,
        ) == Result::<PredictionView, ErrorCode>::Err(ErrorCode::InvalidPredictionStatus),
{
}

/// An agent's statistics after a whole run of resolutions, applied in order.
pub open spec fn spec_agent_after_resolutions(a: Agent, verdicts: Seq<bool>) -> Agent
    decreases verdicts.len(),
{
    if verdicts.len() == 0 {
        a
    } else {
        spec_agent_after_resolve(spec_agent_after_resolutions(a, verdicts.drop_last()), verdicts.last())
    }
}

/// Law: the streak discipline of one resolution. A correct resolution grows
/// the streak by exactly 1; an incorrect one resets it to exactly 0; and the
/// high-water mark never moves down.
pub proof fn lemma_streak_discipline(a: Agent, was_correct: bool)
    ensures
        spec_agent_after_resolve(a, was_correct).best_streak >= a.best_streak,
        was_correct && a.streak < u16::MAX
            ==> spec_agent_after_resolve(a, was_correct).streak == a.streak + 1,
        !was_correct ==> spec_agent_after_resolve(a, was_correct).streak == 0,
{
}

/// Law: `best_streak` never decreases — not over one resolution, and so not
/// over any sequence of resolutions an agent lives through.
pub proof fn lemma_best_streak_monotone(a: Agent, verdicts: Seq<bool>)
    ensures
        spec_agent_after_resolutions(a, verdicts).best_streak >= a.best_streak,
    decreases verdicts.len(),
{
    if verdicts.len() > 0 {
        lemma_best_streak_monotone(a, verdicts.drop_last());
        lemma_streak_discipline(spec_agent_after_resolutions(a, verdicts.drop_last()), verdicts.last());
    }
}

/// Law: resolution is one-shot. A Resolved prediction can never be resolved
/// again, whatever the verdict; and whatever a successful resolution
/// produces is itself Resolved, so a second resolution of it always fails
/// with InvalidPredictionStatus.
pub proof fn lemma_resolve_one_shot(
    p: PredictionView,
    verdict1: bool,
    now1: i64,
    verdict2: bool,
    now2: i64,
)
    ensures
        p.status == PredictionStatus::Resolved ==> spec_resolve(p, verdict1, now1)
            == Result::<PredictionView, ErrorCode>::Err(ErrorCode::InvalidPredictionStatus),
        spec_resolve(p, verdict1, now1) is Ok ==> spec_resolve(
            spec_resolve(p, verdict1, now1)->Ok_0, verdict2, now2,
        ) == Result::<PredictionView, ErrorCode>::Err(ErrorCode::InvalidPredictionStatus),
{
}

} // verus!
