//! A staking-and-prediction settlement engine.
//!
//! Agents join time-boxed seasons, commit hidden predictions backed by a
//! stake, later reveal them, and a designated authority resolves their
//! correctness. Correct predictions return the stake and grow score and
//! streak; incorrect ones forfeit the stake to the treasury. At season end
//! the pooled entry fees are split among the top three entries.
//!
//! The durable ledger substrate (keyed storage, address derivation, signer
//! authentication, the wall clock) is an external collaborator: callers hand
//! each operation the records it names, the balances it moves, and the
//! current time, and the operation either fully applies or returns an error
//! with nothing changed.

pub mod achievements;
pub mod arena;
pub mod errors;
pub mod events;
pub mod fees;
pub mod prediction;
pub mod scoring;
pub mod season;
pub mod state;
pub mod treasury;
