use vstd::prelude::*;
use crate::errors::ErrorCode;
use crate::events::TreasuryWithdrawal;
use crate::state::{Arena, Vault};

verus! {

/// Withdraws accumulated fees from the treasury, restricted to the
/// registry's authority. Fails where the treasury cannot cover the amount,
/// or where the authority's balance would no longer fit; on failure both
/// balances are untouched. What leaves the treasury arrives at the
/// authority exactly.
pub fn withdraw_treasury(
    arena: &Arena,
    authority: u64,
    treasury: &mut Vault,
    authority_balance: &mut u64,
    amount: u64,
) -> (result: Result<TreasuryWithdrawal, ErrorCode>)
    requires
        authority == arena.authority,
    ensures
        match result {
            Ok(ev) => {
                &&& amount <= old(treasury).balance
                &&& *old(authority_balance) + amount <= u64::MAX
                &&& final(treasury).balance == old(treasury).balance - amount
                &&& *final(authority_balance) == *old(authority_balance) + amount
                &&& final(treasury).balance + *final(authority_balance)
                    == old(treasury).balance + *old(authority_balance)
                &&& ev == (TreasuryWithdrawal {
                    authority,
                    amount,
                    remaining_balance: (old(treasury).balance - amount) as u64,
                })
            },
            Err(e) => {
                &&& *final(treasury) == *old(treasury)
                &&& *final(authority_balance) == *old(authority_balance)
                &&& (e == ErrorCode::InsufficientFunds || e == ErrorCode::Overflow)
                &&& (e == ErrorCode::InsufficientFunds <==> amount > old(treasury).balance)
                &&& (e == ErrorCode::Overflow <==> amount <= old(treasury).balance
                    && *old(authority_balance) + amount > u64::MAX)
            },
        },
{
    if amount > treasury.balance {
        return Err(ErrorCode::InsufficientFunds);
    }
    let remaining = treasury.balance - amount;
    let received = match (*authority_balance).checked_add(amount) {
        Some(b) => b,
        None => {
            return Err(ErrorCode::Overflow);
        },
    };
    treasury.balance = remaining;
    *authority_balance = received;
    Ok(TreasuryWithdrawal { authority, amount, remaining_balance: remaining })
}

/// One movement through the treasury, as the engine's operations produce
/// them: a platform fee collected on a season entry, a stake forfeited by an
/// incorrect resolution, or an administrative withdrawal.
#[derive(Clone, Copy, Debug, PartialEq, Eq, Structural)]
pub enum TreasuryEvent {
    PlatformFee(u64),
    ForfeitedStake(u64),
    Withdrawal(u64),
}

/// How one movement changes the treasury balance: fees and forfeits come in,
/// withdrawals go out.
pub open spec fn treasury_delta(event: TreasuryEvent) -> int {
    match event {
        TreasuryEvent::PlatformFee(amount) => amount as int,
        TreasuryEvent::ForfeitedStake(amount) => amount as int,
        TreasuryEvent::Withdrawal(amount) => -(amount as int),
    }
}

/// The treasury balance after a sequence of movements, applied in order.
pub open spec fn treasury_after(initial: int, events: Seq<TreasuryEvent>) -> int
    decreases events.len(),
{
    if events.len() == 0 {
        initial
    } else {
        treasury_after(initial, events.drop_last()) + treasury_delta(events.last())
    }
}

/// The platform fees collected over a sequence of movements.
pub open spec fn sum_platform_fees(events: Seq<TreasuryEvent>) -> int
    decreases events.len(),
{
    if events.len() == 0 {
        0
    } else {
        sum_platform_fees(events.drop_last()) + match events.last() {
            TreasuryEvent::PlatformFee(amount) => amount as int,
            _ => 0,
        }
    }
}

/// The stakes forfeited over a sequence of movements.
pub open spec fn sum_forfeited_stakes(events: Seq<TreasuryEvent>) -> int
    decreases events.len(),
{
    if events.len() == 0 {
        0
    } else {
        sum_forfeited_stakes(events.drop_last()) + match events.last() {
            TreasuryEvent::ForfeitedStake(amount) => amount as int,
            _ => 0,
        }
    }
}

/// The amounts withdrawn over a sequence of movements.
pub open spec fn sum_withdrawals(events: Seq<TreasuryEvent>) -> int
    decreases events.len(),
{
    if events.len() == 0 {
        0
    } else {
        sum_withdrawals(events.drop_last()) + match events.last() {
            TreasuryEvent::Withdrawal(amount) => amount as int,
            _ => 0,
        }
    }
}

/// Law: conservation of funds through the treasury. Over any sequence of
/// operations, the treasury balance afterwards equals the balance before,
/// plus every platform fee and every forfeited stake collected, minus every
/// withdrawal — nothing else ever moves it. Each operation's own contract
/// states the matching single movement: a season entry adds exactly its
/// platform fee, an incorrect resolution adds exactly the forfeited stake, a
/// correct resolution leaves the treasury untouched, and a withdrawal
/// removes exactly its amount.
pub proof fn lemma_treasury_conservation(initial: int, events: Seq<TreasuryEvent>)
    ensures
        treasury_after(initial, events) == initial + sum_platform_fees(events)
            + sum_forfeited_stakes(events) - sum_withdrawals(events),
    decreases events.len(),
{
    if events.len() > 0 {
        lemma_treasury_conservation(initial, events.drop_last());
    }
}

} // verus!
