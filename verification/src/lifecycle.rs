use vstd::prelude::*;

use crate::deriver::VaultAuthority;
use crate::errors::ErrorCode;
use crate::goal::{ComparisonOperator, GoalType, VerificationType};
use crate::ident::{contains_identity, find_identity, identity_eq, Identity};
use crate::pact::{
    ChallengePact, PactStatus, PlayerGoalForChallengePact, MAX_PARTICIPANTS, MAX_STAKE,
    MAX_TEXT_LEN,
};
use crate::settlement::{protocol_fee, settle, Refund, Settlement};
use crate::vault::EscrowVault;

verus! {

/// How many records in `goals` show a locked stake.
pub open spec fn staked_count(goals: Seq<PlayerGoalForChallengePact>) -> int
    decreases goals.len(),
{
    if goals.len() == 0 {
        0
    } else {
        staked_count(goals.drop_last()) + (if goals.last().has_staked {
            1int
        } else {
            0int
        })
    }
}

/// Whether every record in `goals` shows a locked stake.
pub open spec fn all_staked(goals: Seq<PlayerGoalForChallengePact>) -> bool {
    forall|i: int| 0 <= i < goals.len() ==> goals[i].has_staked
}

pub proof fn lemma_staked_count_bounds(goals: Seq<PlayerGoalForChallengePact>)
    ensures
        0 <= staked_count(goals) <= goals.len(),
    decreases goals.len(),
{
    if goals.len() > 0 {
        lemma_staked_count_bounds(goals.drop_last());
    }
}

pub proof fn lemma_staked_count_push(
    goals: Seq<PlayerGoalForChallengePact>,
    g: PlayerGoalForChallengePact,
)
    ensures
        staked_count(goals.push(g)) == staked_count(goals) + (if g.has_staked {
            1int
        } else {
            0int
        }),
{
    assert(goals.push(g).drop_last() =~= goals);
}

pub proof fn lemma_staked_count_update(
    goals: Seq<PlayerGoalForChallengePact>,
    i: int,
    g: PlayerGoalForChallengePact,
)
    requires
        0 <= i < goals.len(),
    ensures
        staked_count(goals.update(i, g)) == staked_count(goals) - (if goals[i].has_staked {
            1int
        } else {
            0int
        }) + (if g.has_staked {
            1int
        } else {
            0int
        }),
    decreases goals.len(),
{
    let updated = goals.update(i, g);
    if i == goals.len() - 1 {
        assert(updated.drop_last() =~= goals.drop_last());
        assert(updated.last() == g);
    } else {
        assert(updated.drop_last() =~= goals.drop_last().update(i, g));
        assert(updated.last() == goals.last());
        lemma_staked_count_update(goals.drop_last(), i, g);
    }
}

/// A prize pool of at most `MAX_PARTICIPANTS` stakes, each at most
/// `MAX_STAKE`, fits in the custody balance's `u64`.
pub proof fn lemma_pool_fits(stake: u64, count: int)
    requires
        0 <= count <= MAX_PARTICIPANTS,
        stake <= MAX_STAKE,
    ensures
        0 <= stake * count <= u64::MAX,
{
    assert(0 <= stake * count && stake * count <= (u64::MAX as int / 10) * 10) by (nonlinear_arith)
        requires
            0 <= count,
            count <= 10,
            0 <= stake,
            stake <= u64::MAX as int / 10,
    ;
}

/// One pact's lifecycle state: the pact record, one stake record per
/// participant in join order, and the bound escrow vault with its
/// derivation proof. Because the records live together under the store's
/// invariant, a participant's stake record can never be absent when a
/// transition looks it up — the fail-closed lookup of the custody layer is
/// represented by `ErrorCode::MissingParticipantRecord` on identities
/// outside the roster.
pub struct PactLifecycle {
    /// The derived address of the pact record itself.
    pub pact_address: Identity,
    pub challenge_pact: ChallengePact,
    /// One stake record per participant, aligned with the roster.
    pub player_goals: Vec<PlayerGoalForChallengePact>,
    pub vault: EscrowVault,
    pub vault_authority: VaultAuthority,
}

impl PactLifecycle {
    pub open spec fn participants(self) -> Seq<Identity> {
        self.challenge_pact.participants@
    }

    pub open spec fn goals(self) -> Seq<PlayerGoalForChallengePact> {
        self.player_goals@
    }

    pub open spec fn status(self) -> PactStatus {
        self.challenge_pact.status
    }

    /// The prize pool always equals the fixed stake times the number of
    /// participants who have staked.
    pub open spec fn pool_consistent(self) -> bool {
        self.challenge_pact.prize_pool == self.challenge_pact.stake * staked_count(self.goals())
    }

    /// Well-formedness: what creation establishes and every transition
    /// preserves.
    pub open spec fn wf(self) -> bool {
        &&& self.challenge_pact.name@.len() <= MAX_TEXT_LEN
        &&& self.challenge_pact.description@.len() <= MAX_TEXT_LEN
        &&& 1 <= self.participants().len() <= MAX_PARTICIPANTS
        &&& self.participants()[0]@ == self.challenge_pact.creator@
        &&& (forall|i: int, j: int|
            0 <= i < j < self.participants().len() ==> self.participants()[i]@
                != self.participants()[j]@)
        &&& self.goals().len() == self.participants().len()
        &&& (forall|i: int|
            0 <= i < self.goals().len() ==> self.goals()[i].player@ == self.participants()[i]@
                && self.goals()[i].pact@ == self.pact_address@)
        &&& 0 < self.challenge_pact.stake <= MAX_STAKE
        &&& ((self.status() == PactStatus::Initialized || self.status() == PactStatus::Active)
            ==> self.pool_consistent() && self.vault.balance == self.challenge_pact.prize_pool)
        &&& ((self.status() == PactStatus::Completed || self.status() == PactStatus::Cancelled)
            ==> self.vault.balance == 0)
        &&& (self.status() == PactStatus::Active ==> all_staked(self.goals()))
        &&& self.vault.address@ == self.challenge_pact.pact_vault@
        &&& self.vault.bump == self.challenge_pact.pact_vault_bump
        &&& self.vault_authority.authorizes(self.vault.address@, self.vault.bump)
    }
}

/// Which statuses the machine can still reach from `pre`: forward along
/// `Initialized -> Active -> Completed`, with `Cancelled` reachable only
/// before activation; the two terminal states reach nothing new.
pub open spec fn status_advances(pre: PactStatus, post: PactStatus) -> bool {
    match pre {
        PactStatus::Initialized => true,
        PactStatus::Active => post == PactStatus::Active || post == PactStatus::Completed,
        PactStatus::Completed => post == PactStatus::Completed,
        PactStatus::Cancelled => post == PactStatus::Cancelled,
    }
}

/// What every transition preserves, whatever else it does: the pact's
/// identity, goal and stake terms never change; the roster only grows, and
/// in place; a locked stake never reverts; the status only moves along the
/// machine.
pub open spec fn evolves(pre: PactLifecycle, post: PactLifecycle) -> bool {
    &&& post.pact_address == pre.pact_address
    &&& post.challenge_pact.name == pre.challenge_pact.name
    &&& post.challenge_pact.description == pre.challenge_pact.description
    &&& post.challenge_pact.creator == pre.challenge_pact.creator
    &&& post.challenge_pact.created_at == pre.challenge_pact.created_at
    &&& post.challenge_pact.goal_type == pre.challenge_pact.goal_type
    &&& post.challenge_pact.goal_value == pre.challenge_pact.goal_value
    &&& post.challenge_pact.verification_type == pre.challenge_pact.verification_type
    &&& post.challenge_pact.comparison_operator == pre.challenge_pact.comparison_operator
    &&& post.challenge_pact.stake == pre.challenge_pact.stake
    &&& post.challenge_pact.pact_vault == pre.challenge_pact.pact_vault
    &&& post.challenge_pact.pact_vault_bump == pre.challenge_pact.pact_vault_bump
    &&& post.vault.address == pre.vault.address
    &&& post.vault.bump == pre.vault.bump
    &&& pre.participants().is_prefix_of(post.participants())
    &&& pre.goals().len() <= post.goals().len()
    &&& (forall|i: int|
        0 <= i < pre.goals().len() ==> post.goals()[i].player == pre.goals()[i].player && (
        pre.goals()[i].has_staked ==> post.goals()[i].has_staked))
    &&& status_advances(pre.status(), post.status())
}

/// Evolution composes: whatever holds across each transition holds across
/// any chain of them.
pub proof fn lemma_evolves_trans(a: PactLifecycle, b: PactLifecycle, c: PactLifecycle)
    requires
        evolves(a, b),
        evolves(b, c),
    ensures
        evolves(a, c),
{
    assert(a.participants().is_prefix_of(c.participants())) by {
        assert(a.participants() =~= b.participants().subrange(0, a.participants().len() as int));
        assert(b.participants() =~= c.participants().subrange(0, b.participants().len() as int));
        assert(a.participants() =~= c.participants().subrange(0, a.participants().len() as int));
    }
}

/// Joining is permanent: once an identity is in the roster, it stays there
/// through every later transition. Together with `join_challenge_pact`'s
/// contract — which returns `AlreadyJoined` exactly when the identity is
/// already a participant of a joinable pact — this makes a second join
/// fail no matter how many other participants joined in between.
pub proof fn lemma_membership_monotone(pre: PactLifecycle, post: PactLifecycle, player: Identity)
    requires
        evolves(pre, post),
        contains_identity(pre.participants(), player),
    ensures
        contains_identity(post.participants(), player),
{
    let i = choose|i: int|
        0 <= i < pre.participants().len() && pre.participants()[i]@ == player@;
    assert(pre.participants() =~= post.participants().subrange(
        0,
        pre.participants().len() as int,
    ));
    assert(post.participants()[i]@ == player@);
}

/// Whether `player` holds a stake record marked staked in `state`.
pub open spec fn has_staked_in(state: PactLifecycle, player: Identity) -> bool {
    exists|i: int|
        0 <= i < state.goals().len() && state.goals()[i].player@ == player@
            && state.goals()[i].has_staked
}

/// Staking is monotonic: once a participant's record shows a locked stake,
/// it still does after every later transition. Together with
/// `stake_amount_for_challenge_pact`'s contract — which returns
/// `AlreadyStaked` exactly on a record already staked, leaving the prize
/// pool untouched — a second stake by the same participant can never
/// double-collect.
pub proof fn lemma_staking_monotone(pre: PactLifecycle, post: PactLifecycle, player: Identity)
    requires
        evolves(pre, post),
        has_staked_in(pre, player),
    ensures
        has_staked_in(post, player),
{
    let i = choose|i: int|
        0 <= i < pre.goals().len() && pre.goals()[i].player@ == player@
            && pre.goals()[i].has_staked;
    assert(post.goals()[i].player == pre.goals()[i].player);
    assert(post.goals()[i].has_staked);
}

/// Create a pact together with its escrow vault: the creator auto-joins as
/// participant 0 with a fresh stake record, the pool and the vault start
/// empty, and the vault's derivation proof is locked into the state so
/// settlement can later debit custody without any participant signature.
/// The caller supplies the derived addresses (see `crate::deriver`) and the
/// host clock's timestamp.
///
/// Fails with `InvalidAmount` exactly when the stake is zero.
pub fn initialize_challenge_pact(
    name: String,
    description: String,
    creator: Identity,
    created_at: i64,
    goal_type: GoalType,
    goal_value: u64,
    verification_type: VerificationType,
    comparison_operator: ComparisonOperator,
    stake: u64,
    pact_address: Identity,
    vault_address: Identity,
    vault_authority: VaultAuthority,
) -> (r: Result<PactLifecycle, ErrorCode>)
    requires
        name@.len() <= MAX_TEXT_LEN,
        description@.len() <= MAX_TEXT_LEN,
        stake <= MAX_STAKE,
        vault_authority.vault_id() == vault_address@,
    ensures
        (match r {
            Ok(p) => {
                &&& stake > 0
                &&& p.wf()
                &&& p.pact_address == pact_address
                &&& p.challenge_pact.name == name
                &&& p.challenge_pact.description == description
                &&& p.challenge_pact.creator == creator
                &&& p.challenge_pact.created_at == created_at
                &&& p.challenge_pact.goal_type == goal_type
                &&& p.challenge_pact.goal_value == goal_value
                &&& p.challenge_pact.verification_type == verification_type
                &&& p.challenge_pact.comparison_operator == comparison_operator
                &&& p.challenge_pact.stake == stake
                &&& p.challenge_pact.prize_pool == 0
                &&& p.challenge_pact.status == PactStatus::Initialized
                &&& p.participants() == seq![creator]
                &&& p.goals() == seq![
                    (PlayerGoalForChallengePact {
                        player: creator,
                        pact: pact_address,
                        has_staked: false,
                        is_eliminated: false,
                        eliminated_at: None,
                    }),
                ]
                &&& p.challenge_pact.pact_vault == vault_address
                &&& p.challenge_pact.pact_vault_bump == vault_authority.bump_value()
                &&& p.vault == (EscrowVault {
                    address: vault_address,
                    bump: vault_authority.bump_value(),
                    balance: 0,
                })
                &&& p.vault_authority == vault_authority
            },
            Err(e) => e == ErrorCode::InvalidAmount && stake == 0,
        }),
{
    if stake == 0 {
        return Err(ErrorCode::InvalidAmount);
    }
    let creator_goal = PlayerGoalForChallengePact {
        player: creator,
        pact: pact_address,
        has_staked: false,
        is_eliminated: false,
        eliminated_at: None,
    };
    let mut participants: Vec<Identity> = Vec::new();
    participants.push(creator);
    let mut player_goals: Vec<PlayerGoalForChallengePact> = Vec::new();
    player_goals.push(creator_goal);
    let bump = vault_authority.bump();
    let state = PactLifecycle {
        pact_address,
        challenge_pact: ChallengePact {
            name,
            description,
            creator,
            created_at,
            participants,
            status: PactStatus::Initialized,
            goal_type,
            goal_value,
            verification_type,
            comparison_operator,
            stake,
            prize_pool: 0,
            pact_vault: vault_address,
            pact_vault_bump: bump,
        },
        player_goals,
        vault: EscrowVault { address: vault_address, bump, balance: 0 },
        vault_authority,
    };
    proof {
        assert(state.participants() =~= seq![creator]);
        assert(state.goals() =~= seq![creator_goal]);
        lemma_staked_count_push(Seq::<PlayerGoalForChallengePact>::empty(), creator_goal);
        assert(Seq::<PlayerGoalForChallengePact>::empty().push(creator_goal) =~= state.goals());
        assert(staked_count(state.goals()) == 0);
    }
    Ok(state)
}

/// Append `player` to the roster of a pact that has not started, creating
/// their fresh stake record beside it. Fails, leaving the state untouched,
/// with `NotInitialized` when the pact is past joining, `AlreadyJoined`
/// when the identity is already a participant — no matter how many others
/// joined in between — and `CapacityExceeded` when the roster is full.
pub fn join_challenge_pact(state: &mut PactLifecycle, player: Identity) -> (r: Result<
    (),
    ErrorCode,
>)
    requires
        old(state).wf(),
    ensures
        final(state).wf(),
        evolves(*old(state), *final(state)),
        (match r {
            Ok(()) => {
                &&& old(state).status() == PactStatus::Initialized
                &&& !contains_identity(old(state).participants(), player)
                &&& old(state).participants().len() < MAX_PARTICIPANTS
                &&& final(state).participants() == old(state).participants().push(player)
                &&& final(state).goals() == old(state).goals().push(
                    (PlayerGoalForChallengePact {
                        player,
                        pact: old(state).pact_address,
                        has_staked: false,
                        is_eliminated: false,
                        eliminated_at: None,
                    }),
                )
                &&& final(state).challenge_pact == (ChallengePact {
                    participants: final(state).challenge_pact.participants,
                    ..old(state).challenge_pact
                })
                &&& final(state).pact_address == old(state).pact_address
                &&& final(state).vault == old(state).vault
                &&& final(state).vault_authority == old(state).vault_authority
            },
            Err(e) => *final(state) == *old(state) && {
                ||| (e == ErrorCode::NotInitialized && old(state).status()
                    != PactStatus::Initialized)
                ||| (e == ErrorCode::AlreadyJoined && old(state).status()
                    == PactStatus::Initialized && contains_identity(
                    old(state).participants(),
                    player,
                ))
                ||| (e == ErrorCode::CapacityExceeded && old(state).status()
                    == PactStatus::Initialized && !contains_identity(
                    old(state).participants(),
                    player,
                ) && old(state).participants().len() >= MAX_PARTICIPANTS)
            },
        }),
{
    if state.challenge_pact.status != PactStatus::Initialized {
        return Err(ErrorCode::NotInitialized);
    }
    if find_identity(&state.challenge_pact.participants, &player).is_some() {
        return Err(ErrorCode::AlreadyJoined);
    }
    if state.challenge_pact.participants.len() >= MAX_PARTICIPANTS {
        return Err(ErrorCode::CapacityExceeded);
    }
    let goal = PlayerGoalForChallengePact {
        player,
        pact: state.pact_address,
        has_staked: false,
        is_eliminated: false,
        eliminated_at: None,
    };
    state.challenge_pact.participants.push(player);
    state.player_goals.push(goal);
    proof {
        lemma_staked_count_push(old(state).goals(), goal);
        assert(old(state).participants().is_prefix_of(state.participants())) by {
            assert(old(state).participants() =~= state.participants().subrange(
                0,
                old(state).participants().len() as int,
            ));
        }
    }
    Ok(())
}

/// Lock `player`'s stake: exactly the pact's fixed amount moves into the
/// escrow vault, the stake record flips to staked, and the prize pool grows
/// by one stake. Fails, leaving the state untouched, with `NotInitialized`
/// when the pact is past staking, `MissingParticipantRecord` when the
/// identity never joined, `AlreadyStaked` when the record already shows a
/// locked stake, and `InvalidAmount` when `amount` differs from the fixed
/// stake — a mismatched amount is rejected, never silently replaced.
pub fn stake_amount_for_challenge_pact(
    state: &mut PactLifecycle,
    player: Identity,
    amount: u64,
) -> (r: Result<(), ErrorCode>)
    requires
        old(state).wf(),
    ensures
        final(state).wf(),
        evolves(*old(state), *final(state)),
        (match r {
            Ok(()) => {
                &&& old(state).status() == PactStatus::Initialized
                &&& amount == old(state).challenge_pact.stake
                &&& (exists|i: int|
                    0 <= i < old(state).participants().len() && old(state).participants()[i]@
                        == player@ && !old(state).goals()[i].has_staked && final(state).goals()
                        == old(state).goals().update(
                        i,
                        (PlayerGoalForChallengePact {
                            has_staked: true,
                            ..old(state).goals()[i]
                        }),
                    ))
                &&& final(state).challenge_pact.prize_pool == old(state).challenge_pact.prize_pool
                    + old(state).challenge_pact.stake
                &&& final(state).vault.balance == old(state).vault.balance + old(
                    state,
                ).challenge_pact.stake
                &&& final(state).challenge_pact == (ChallengePact {
                    prize_pool: final(state).challenge_pact.prize_pool,
                    ..old(state).challenge_pact
                })
                &&& final(state).pact_address == old(state).pact_address
                &&& final(state).vault == (EscrowVault {
                    balance: final(state).vault.balance,
                    ..old(state).vault
                })
                &&& final(state).vault_authority == old(state).vault_authority
            },
            Err(e) => *final(state) == *old(state) && {
                ||| (e == ErrorCode::NotInitialized && old(state).status()
                    != PactStatus::Initialized)
                ||| (e == ErrorCode::MissingParticipantRecord && old(state).status()
                    == PactStatus::Initialized && !contains_identity(
                    old(state).participants(),
                    player,
                ))
                ||| (e == ErrorCode::AlreadyStaked && old(state).status()
                    == PactStatus::Initialized && has_staked_in(*old(state), player))
                ||| (e == ErrorCode::InvalidAmount && old(state).status()
                    == PactStatus::Initialized && contains_identity(
                    old(state).participants(),
                    player,
                ) && !has_staked_in(*old(state), player) && amount != old(
                    state,
                ).challenge_pact.stake)
            },
        }),
{
    if state.challenge_pact.status != PactStatus::Initialized {
        return Err(ErrorCode::NotInitialized);
    }
    let idx = match find_identity(&state.challenge_pact.participants, &player) {
        Some(i) => i,
        None => {
            proof {
                assert(!has_staked_in(*old(state), player)) by {
                    if has_staked_in(*old(state), player) {
                        let i = choose|i: int|
                            0 <= i < old(state).goals().len() && old(state).goals()[i].player@
                                == player@ && old(state).goals()[i].has_staked;
                        assert(old(state).participants()[i]@ == player@);
                        assert(contains_identity(old(state).participants(), player));
                    }
                }
            }
            return Err(ErrorCode::MissingParticipantRecord);
        },
    };
    proof {
        assert forall|j: int|
            0 <= j < old(state).goals().len() && old(state).goals()[j].player@
                == player@ implies j == idx as int by {
            if j != idx as int {
                assert(old(state).participants()[j]@ != old(state).participants()[idx as int]@);
            }
        }
    }
    if state.player_goals[idx].has_staked {
        return Err(ErrorCode::AlreadyStaked);
    }
    if amount != state.challenge_pact.stake {
        proof {
            assert(!has_staked_in(*old(state), player));
        }
        return Err(ErrorCode::InvalidAmount);
    }
    let staked_goal = PlayerGoalForChallengePact { has_staked: true, ..state.player_goals[idx] };
    proof {
        lemma_staked_count_bounds(old(state).goals());
        lemma_staked_count_update(old(state).goals(), idx as int, staked_goal);
        lemma_staked_count_bounds(old(state).goals().update(idx as int, staked_goal));
        let count = staked_count(old(state).goals());
        let stake_now = old(state).challenge_pact.stake;
        lemma_pool_fits(stake_now, count + 1);
        assert(stake_now * (count + 1) == stake_now * count + stake_now) by (nonlinear_arith);
    }
    state.player_goals[idx] = staked_goal;
    let stake = state.challenge_pact.stake;
    state.challenge_pact.prize_pool = state.challenge_pact.prize_pool + stake;
    state.vault.credit(stake);
    Ok(())
}

/// Activate the pact: the all-or-nothing gate. Only the creator may call
/// it, and it succeeds exactly when every participant in the roster has
/// staked — a single unstaked participant blocks the whole pact, so an
/// underfunded prize pool can never start running. Fails, leaving the
/// state untouched, with `NotInitialized` past joining, `NotCreator` for
/// anyone but the creator, and `NotFullyStaked` when a stake is missing.
pub fn start_challenge_pact(state: &mut PactLifecycle, caller: Identity) -> (r: Result<
    (),
    ErrorCode,
>)
    requires
        old(state).wf(),
    ensures
        final(state).wf(),
        evolves(*old(state), *final(state)),
        (match r {
            Ok(()) => {
                &&& old(state).status() == PactStatus::Initialized
                &&& caller@ == old(state).challenge_pact.creator@
                &&& all_staked(old(state).goals())
                &&& *final(state) == (PactLifecycle {
                    challenge_pact: (ChallengePact {
                        status: PactStatus::Active,
                        ..old(state).challenge_pact
                    }),
                    ..*old(state)
                })
            },
            Err(e) => *final(state) == *old(state) && {
                ||| (e == ErrorCode::NotInitialized && old(state).status()
                    != PactStatus::Initialized)
                ||| (e == ErrorCode::NotCreator && old(state).status() == PactStatus::Initialized
                    && caller@ != old(state).challenge_pact.creator@)
                ||| (e == ErrorCode::NotFullyStaked && old(state).status()
                    == PactStatus::Initialized && caller@ == old(state).challenge_pact.creator@
                    && !all_staked(old(state).goals()))
            },
        }),
{
    if state.challenge_pact.status != PactStatus::Initialized {
        return Err(ErrorCode::NotInitialized);
    }
    if !identity_eq(&caller, &state.challenge_pact.creator) {
        return Err(ErrorCode::NotCreator);
    }
    let mut i: usize = 0;
    while i < state.player_goals.len()
        invariant
            old(state).wf(),
            *state == *old(state),
            old(state).status() == PactStatus::Initialized,
            caller@ == old(state).challenge_pact.creator@,
            i <= state.player_goals.len(),
            forall|j: int| 0 <= j < i ==> state.goals()[j].has_staked,
        decreases state.player_goals.len() - i,
    {
        if !state.player_goals[i].has_staked {
            proof {
                assert(!old(state).goals()[i as int].has_staked);
            }
            return Err(ErrorCode::NotFullyStaked);
        }
        i += 1;
    }
    state.challenge_pact.status = PactStatus::Active;
    Ok(())
}

/// Record the elimination signal the external verifier delivered for
/// `player`: set the flag and its timestamp together on the one stake
/// record that belongs to the participant. Only legal while the pact is
/// `Active`. Fails, touching nothing, with `MissingParticipantRecord` when
/// the identity never joined.
pub fn update_player_goal(
    state: &mut PactLifecycle,
    player: Identity,
    is_eliminated: bool,
    eliminated_at: Option<i64>,
) -> (r: Result<(), ErrorCode>)
    requires
        old(state).wf(),
        old(state).status() == PactStatus::Active,
    ensures
        final(state).wf(),
        evolves(*old(state), *final(state)),
        (match r {
            Ok(()) => {
                &&& (exists|i: int|
                    0 <= i < old(state).participants().len() && old(state).participants()[i]@
                        == player@ && final(state).goals() == old(state).goals().update(
                        i,
                        (PlayerGoalForChallengePact {
                            is_eliminated,
                            eliminated_at,
                            ..old(state).goals()[i]
                        }),
                    ))
                &&& contains_identity(old(state).participants(), player)
                &&& final(state).challenge_pact == old(state).challenge_pact
                &&& final(state).vault == old(state).vault
                &&& final(state).pact_address == old(state).pact_address
                &&& final(state).vault_authority == old(state).vault_authority
            },
            Err(e) => {
                &&& e == ErrorCode::MissingParticipantRecord
                &&& !contains_identity(old(state).participants(), player)
                &&& *final(state) == *old(state)
            },
        }),
{
    let idx = match find_identity(&state.challenge_pact.participants, &player) {
        Some(i) => i,
        None => {
            return Err(ErrorCode::MissingParticipantRecord);
        },
    };
    let updated = PlayerGoalForChallengePact {
        is_eliminated,
        eliminated_at,
        ..state.player_goals[idx]
    };
    proof {
        lemma_staked_count_update(old(state).goals(), idx as int, updated);
    }
    state.player_goals[idx] = updated;
    Ok(())
}

/// Conclude an active pact in favor of `winner`: flip the status to
/// `Completed` and run settlement, debiting the whole prize pool out of
/// custody — the one-percent fee owed to the protocol and the exact
/// remainder owed to the winner, as the returned movements. The declared
/// winner is supplied by the caller and deliberately not cross-checked
/// against elimination records: winner determination sits with an external
/// authority. All or nothing: on failure the status does not advance and
/// custody is untouched, so calling this twice fails the second time with
/// `AlreadyCompleted` and moves nothing.
pub fn end_challenge_pact(state: &mut PactLifecycle, winner: Identity) -> (r: Result<
    Settlement,
    ErrorCode,
>)
    requires
        old(state).wf(),
    ensures
        final(state).wf(),
        evolves(*old(state), *final(state)),
        (match r {
            Ok(s) => {
                &&& old(state).status() == PactStatus::Active
                &&& s.winner == winner
                &&& s.fee == protocol_fee(old(state).challenge_pact.prize_pool)
                &&& s.fee + s.winner_share == old(state).challenge_pact.prize_pool
                &&& final(state).challenge_pact == (ChallengePact {
                    status: PactStatus::Completed,
                    ..old(state).challenge_pact
                })
                &&& final(state).vault == (EscrowVault { balance: 0, ..old(state).vault })
                &&& final(state).goals() == old(state).goals()
                &&& final(state).pact_address == old(state).pact_address
                &&& final(state).vault_authority == old(state).vault_authority
            },
            Err(e) => {
                &&& e == ErrorCode::AlreadyCompleted
                &&& old(state).status() != PactStatus::Active
                &&& *final(state) == *old(state)
            },
        }),
{
    if state.challenge_pact.status != PactStatus::Active {
        return Err(ErrorCode::AlreadyCompleted);
    }
    let prize_pool = state.challenge_pact.prize_pool;
    let settlement = match settle(&mut state.vault, &state.vault_authority, prize_pool, winner) {
        Ok(s) => s,
        Err(e) => {
            proof {
                assert(false);
            }
            return Err(e);
        },
    };
    state.challenge_pact.status = PactStatus::Completed;
    Ok(settlement)
}

/// The refunds a cancellation owes: one per staked participant, each of
/// exactly the fixed stake, in roster order.
pub open spec fn refund_list(
    participants: Seq<Identity>,
    goals: Seq<PlayerGoalForChallengePact>,
    stake: u64,
) -> Seq<Refund>
    decreases goals.len(),
{
    if goals.len() == 0 {
        Seq::empty()
    } else {
        refund_list(participants, goals.drop_last(), stake) + (if goals.last().has_staked {
            seq![(Refund { player: participants[goals.len() - 1], amount: stake })]
        } else {
            Seq::empty()
        })
    }
}

/// Abandon a pact that never activated: every collected stake is owed back
/// to its payer, custody is drained to zero and the pact retires as
/// `Cancelled`, atomically as a unit — no partial cancellation. Returns
/// the full refund fan-out. Fails, touching nothing, with `NotInitialized`
/// when the pact already started or ended.
pub fn cancel_challenge_pact(state: &mut PactLifecycle) -> (r: Result<Vec<Refund>, ErrorCode>)
    requires
        old(state).wf(),
    ensures
        final(state).wf(),
        evolves(*old(state), *final(state)),
        (match r {
            Ok(refunds) => {
                &&& old(state).status() == PactStatus::Initialized
                &&& refunds@ == refund_list(
                    old(state).participants(),
                    old(state).goals(),
                    old(state).challenge_pact.stake,
                )
                &&& final(state).challenge_pact == (ChallengePact {
                    status: PactStatus::Cancelled,
                    prize_pool: 0,
                    ..old(state).challenge_pact
                })
                &&& final(state).vault == (EscrowVault { balance: 0, ..old(state).vault })
                &&& final(state).goals() == old(state).goals()
                &&& final(state).pact_address == old(state).pact_address
                &&& final(state).vault_authority == old(state).vault_authority
            },
            Err(e) => {
                &&& e == ErrorCode::NotInitialized
                &&& old(state).status() != PactStatus::Initialized
                &&& *final(state) == *old(state)
            },
        }),
{
    if state.challenge_pact.status != PactStatus::Initialized {
        return Err(ErrorCode::NotInitialized);
    }
    let stake = state.challenge_pact.stake;
    let mut refunds: Vec<Refund> = Vec::new();
    let mut i: usize = 0;
    while i < state.player_goals.len()
        invariant
            old(state).wf(),
            *state == *old(state),
            i <= state.player_goals.len(),
            refunds@ == refund_list(
                old(state).participants(),
                old(state).goals().take(i as int),
                stake,
            ),
            stake == old(state).challenge_pact.stake,
        decreases state.player_goals.len() - i,
    {
        proof {
            assert(old(state).goals().take(i + 1 as int).drop_last() =~= old(state).goals().take(
                i as int,
            ));
            assert(old(state).goals().take(i + 1 as int).last() == old(state).goals()[i as int]);
        }
        if state.player_goals[i].has_staked {
            refunds.push(Refund { player: state.challenge_pact.participants[i], amount: stake });
        }
        i += 1;
    }
    proof {
        assert(old(state).goals().take(old(state).goals().len() as int) =~= old(state).goals());
    }
    let prize_pool = state.challenge_pact.prize_pool;
    let debit = state.vault.debit(&state.vault_authority, prize_pool);
    proof {
        assert(debit is Ok);
    }
    state.challenge_pact.status = PactStatus::Cancelled;
    state.challenge_pact.prize_pool = 0;
    Ok(refunds)
}

/// What a refund fan-out pays back in total.
pub open spec fn refund_total(refunds: Seq<Refund>) -> int
    decreases refunds.len(),
{
    if refunds.len() == 0 {
        0
    } else {
        refund_total(refunds.drop_last()) + refunds.last().amount
    }
}

/// Cancellation conserves funds: the refunds owed by `refund_list` sum to
/// exactly one stake per locked stake record — under the accounting law,
/// exactly the prize pool, so a full cancellation strands nothing.
pub proof fn lemma_refund_conservation(
    participants: Seq<Identity>,
    goals: Seq<PlayerGoalForChallengePact>,
    stake: u64,
)
    ensures
        refund_total(refund_list(participants, goals, stake)) == stake * staked_count(goals),
    decreases goals.len(),
{
    if goals.len() == 0 {
        assert(stake * 0 == 0) by (nonlinear_arith);
    } else {
        lemma_refund_conservation(participants, goals.drop_last(), stake);
        let rest = refund_list(participants, goals.drop_last(), stake);
        let count_rest = staked_count(goals.drop_last());
        if goals.last().has_staked {
            let one = seq![(Refund { player: participants[goals.len() - 1], amount: stake })];
            assert((rest + one).drop_last() =~= rest);
            assert((rest + one).last() == one[0]);
            assert(stake * (count_rest + 1) == stake * count_rest + stake) by (nonlinear_arith);
        } else {
            assert(rest + Seq::<Refund>::empty() =~= rest);
        }
    }
}

/// The prize-pool accounting law: before settlement the pool is exactly
/// the fixed stake times the number of locked stakes.
pub proof fn lemma_prize_pool_invariant(state: PactLifecycle)
    requires
        state.wf(),
        state.status() == PactStatus::Initialized || state.status() == PactStatus::Active,
    ensures
        state.challenge_pact.prize_pool == state.challenge_pact.stake * staked_count(
            state.goals(),
        ),
{
}

} // verus!
