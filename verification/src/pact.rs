use vstd::prelude::*;

use crate::goal::{ComparisonOperator, GoalType, VerificationType};
use crate::ident::Identity;

verus! {

/// Upper bound on the participant roster of one pact.
pub const MAX_PARTICIPANTS: usize = 10;

/// Upper bound on the length of a pact's name and description, a resource
/// accounting constraint of the custody layer.
pub const MAX_TEXT_LEN: usize = 32;

/// Largest per-participant stake for which a fully staked prize pool of
/// `MAX_PARTICIPANTS` stakes still fits in a `u64`.
pub const MAX_STAKE: u64 = u64::MAX / 10;

/// Where a pact stands in its lifecycle.
///
/// The only transitions are `Initialized -> Active -> Completed`, with
/// `Initialized -> Cancelled` as an escape hatch; `Completed` and
/// `Cancelled` are terminal.
#[derive(Clone, Copy, Debug, PartialEq, Eq, Structural)]
pub enum PactStatus {
    /// Participants may still join and stake.
    Initialized,
    /// Every participant has staked and the challenge is running.
    Active,
    /// The prize pool has been settled and distributed.
    Completed,
    /// The pact was abandoned before activation and all stakes refunded.
    Cancelled,
}

impl Default for PactStatus {
    fn default() -> (r: Self)
        ensures
            r == PactStatus::Initialized,
    {
        PactStatus::Initialized
    }
}

/// One staking challenge: its goal, fixed stake, participant roster, prize
/// pool accounting and escrow binding.
#[derive(Clone, Debug)]
pub struct ChallengePact {
    /// Bounded-length display name; also a derivation seed of the pact's
    /// address.
    pub name: String,
    /// Bounded-length description.
    pub description: String,
    /// The proposer: the only identity allowed to trigger activation, and
    /// implicitly participant 0.
    pub creator: Identity,
    /// Creation timestamp, supplied by the host environment's clock.
    pub created_at: i64,
    /// Joined identities, unique, in join order.
    pub participants: Vec<Identity>,
    pub status: PactStatus,
    pub goal_type: GoalType,
    pub goal_value: u64,
    pub verification_type: VerificationType,
    pub comparison_operator: ComparisonOperator,
    /// Fixed stake each participant must lock, set at creation.
    pub stake: u64,
    /// Running total of collected stakes, pending distribution.
    pub prize_pool: u64,
    /// Derived address of the bound escrow vault.
    pub pact_vault: Identity,
    /// Bump seed of the vault derivation.
    pub pact_vault_bump: u8,
}

/// One participant's stake record for one pact.
#[derive(Clone, Copy, Debug)]
pub struct PlayerGoalForChallengePact {
    pub player: Identity,
    /// The address of the pact this record belongs to.
    pub pact: Identity,
    /// Whether the participant locked their stake; moves only from `false`
    /// to `true` and never reverts.
    pub has_staked: bool,
    /// Whether the external verifier reported the participant as having
    /// failed the goal condition.
    pub is_eliminated: bool,
    /// When the elimination was recorded, set together with it.
    pub eliminated_at: Option<i64>,
}

/// Identity-keyed profile bookkeeping. Kept alongside the pacts but outside
/// the settlement core: nothing here gates a transition.
#[derive(Clone, Debug)]
pub struct PlayerProfile {
    pub owner: Identity,
    pub name: String,
    /// Addresses of the pacts the owner is participating in.
    pub active_pacts: Vec<Identity>,
    pub pacts_won: u64,
    pub pacts_lost: u64,
}

/// Build a fresh profile for `owner` with no pacts and zeroed counters.
pub fn initialize_player_profile(owner: Identity, name: String) -> (r: PlayerProfile)
    ensures
        r.owner == owner,
        r.name == name,
        r.active_pacts@ =~= Seq::<Identity>::empty(),
        r.pacts_won == 0,
        r.pacts_lost == 0,
{
    PlayerProfile { owner, name, active_pacts: Vec::new(), pacts_won: 0, pacts_lost: 0 }
}

/// Note in `profile` that its owner entered the pact at `pact`.
pub fn record_active_pact(profile: &mut PlayerProfile, pact: Identity)
    ensures
        final(profile).active_pacts@ == old(profile).active_pacts@.push(pact),
        final(profile).owner == old(profile).owner,
        final(profile).name == old(profile).name,
        final(profile).pacts_won == old(profile).pacts_won,
        final(profile).pacts_lost == old(profile).pacts_lost,
{
    profile.active_pacts.push(pact);
}

/// Count a settled pact on a participant's profile: one more win for the
/// winner, one more loss for anyone else. A best-effort follow-up to
/// settlement, not part of its atomic movements.
pub fn record_pact_outcome(profile: &mut PlayerProfile, won: bool)
    requires
        old(profile).pacts_won < u64::MAX,
        old(profile).pacts_lost < u64::MAX,
    ensures
        final(profile).pacts_won == old(profile).pacts_won + (if won {
            1int
        } else {
            0int
        }),
        final(profile).pacts_lost == old(profile).pacts_lost + (if won {
            0int
        } else {
            1int
        }),
        final(profile).owner == old(profile).owner,
        final(profile).name == old(profile).name,
        final(profile).active_pacts == old(profile).active_pacts,
{
    if won {
        profile.pacts_won = profile.pacts_won + 1;
    } else {
        profile.pacts_lost = profile.pacts_lost + 1;
    }
}

} // verus!
