use vstd::prelude::*;

verus! {

/// Why an operation was rejected. Every operation validates before it
/// mutates: when one of these comes back, no record and no balance has
/// changed.
///
/// `Overflow` is the fail-closed outcome of checked arithmetic: a counter,
/// score or balance that would no longer fit its machine word leaves the
/// operation rejected rather than wrapped.
#[derive(Clone, Copy, Debug, PartialEq, Eq, Structural)]
pub enum ErrorCode {
    NameTooLong,
    EndpointTooLong,
    InvalidPrizeSplit,
    SeasonNotActive,
    SeasonEnded,
    SeasonNotEnded,
    InvalidSeasonStatus,
    InvalidPredictionStatus,
    HashMismatch,
    InsufficientFunds,
    Overflow,
}

} // verus!
