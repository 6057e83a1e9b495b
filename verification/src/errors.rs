use vstd::prelude::*;

verus! {

/// Why a lifecycle transition was refused.
///
/// Every guard failure is local, synchronous and terminal for that
/// invocation: the transition aborts with no partial state mutation, and the
/// caller may retry the whole operation after correcting state.
#[derive(Clone, Copy, Debug, PartialEq, Eq, Structural)]
pub enum ErrorCode {
    /// The transition requires `Initialized` status but the pact is in
    /// another state.
    NotInitialized,
    /// The joining identity is already in the participant roster.
    AlreadyJoined,
    /// The participant roster is already at capacity.
    CapacityExceeded,
    /// An administrative call (activation) was made by an identity other
    /// than the pact's creator.
    NotCreator,
    /// The participant's stake record already shows `has_staked`.
    AlreadyStaked,
    /// A non-positive stake, or a staked amount that differs from the pact's
    /// fixed stake.
    InvalidAmount,
    /// No stake record exists for the named participant.
    MissingParticipantRecord,
    /// Activation was attempted while at least one participant had not
    /// staked.
    NotFullyStaked,
    /// The transition requires `Active` status but the pact has already
    /// reached a terminal state.
    AlreadyCompleted,
    /// A settlement debit would exceed the vault's custody balance.
    InsufficientVaultBalance,
}

} // verus!
