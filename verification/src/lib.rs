//! A multi-party, goal-conditioned staking escrow.
//!
//! A group of participants each lock a fixed stake into a shared pool tied to
//! a goal; when the challenge concludes, the pool is released to a declared
//! winner minus a small protocol fee. The crate covers the challenge-pact
//! lifecycle and settlement engine: deterministic derivation of per-pact and
//! per-participant sub-accounts, the state machine governing when staking,
//! activation, elimination-tracking and payout are legal, and the custody
//! arithmetic that moves value between participants, a shared escrow vault, a
//! fee-collection account, and a winner.

pub mod deriver;
pub mod errors;
pub mod goal;
pub mod ident;
pub mod lifecycle;
pub mod pact;
pub mod settlement;
pub mod vault;
