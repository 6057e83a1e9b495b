use pact::deriver::{derive_challenge_pact_address, VaultAuthority};
use pact::errors::ErrorCode;
use pact::goal::{ComparisonOperator, GoalType, VerificationType};
use pact::ident::{find_identity, identity_eq, Identity};
use pact::lifecycle::{
    cancel_challenge_pact, end_challenge_pact, initialize_challenge_pact, join_challenge_pact,
    start_challenge_pact, stake_amount_for_challenge_pact, update_player_goal, PactLifecycle,
};
use pact::pact::{initialize_player_profile, record_active_pact, record_pact_outcome, PactStatus};
use pact::settlement::settlement_split;

fn id(b: u8) -> Identity {
    Identity { bytes: [b; 32] }
}

fn new_pact(stake: u64, creator: Identity) -> PactLifecycle {
    let program = id(9);
    let (pact_addr, _) = derive_challenge_pact_address(&program, "walkathon", &creator)
        .expect("pact derivation");
    let (vault_addr, authority) = VaultAuthority::claim(&program, &pact_addr)
        .expect("vault derivation");
    initialize_challenge_pact(
        String::from("walkathon"),
        String::from("ten thousand steps a day"),
        creator,
        1_700_000_000,
        GoalType::DailySteps,
        10_000,
        VerificationType::FitnessAPI,
        ComparisonOperator::GreaterOrEqual,
        stake,
        pact_addr,
        vault_addr,
        authority,
    )
    .expect("creation")
}

fn staked_count(state: &PactLifecycle) -> u64 {
    state.player_goals.iter().filter(|g| g.has_staked).count() as u64
}

#[test]
fn creation_sets_up_pact_and_vault() {
    let state = new_pact(100, id(1));
    assert_eq!(state.challenge_pact.status, PactStatus::Initialized);
    assert_eq!(state.challenge_pact.stake, 100);
    assert_eq!(state.challenge_pact.prize_pool, 0);
    assert_eq!(state.vault.balance, 0);
    assert_eq!(state.challenge_pact.participants.len(), 1);
    assert_eq!(state.challenge_pact.participants[0].bytes, id(1).bytes);
    assert_eq!(state.player_goals.len(), 1);
    assert!(!state.player_goals[0].has_staked);
    assert!(!state.player_goals[0].is_eliminated);
    assert_eq!(state.player_goals[0].eliminated_at, None);
    assert_eq!(state.vault.address.bytes, state.challenge_pact.pact_vault.bytes);
    assert_eq!(state.vault.bump, state.challenge_pact.pact_vault_bump);
}

#[test]
fn creation_rejects_zero_stake() {
    let creator = id(1);
    let program = id(9);
    let (pact_addr, _) = derive_challenge_pact_address(&program, "walkathon", &creator).unwrap();
    let (vault_addr, authority) = VaultAuthority::claim(&program, &pact_addr).unwrap();
    let r = initialize_challenge_pact(
        String::from("walkathon"),
        String::from("ten thousand steps a day"),
        creator,
        1_700_000_000,
        GoalType::DailySteps,
        10_000,
        VerificationType::FitnessAPI,
        ComparisonOperator::GreaterOrEqual,
        0,
        pact_addr,
        vault_addr,
        authority,
    );
    assert!(matches!(r, Err(ErrorCode::InvalidAmount)));
}

#[test]
fn prize_pool_tracks_staked_count() {
    let mut state = new_pact(100, id(1));
    join_challenge_pact(&mut state, id(2)).unwrap();
    join_challenge_pact(&mut state, id(3)).unwrap();
    assert_eq!(state.challenge_pact.prize_pool, 100 * staked_count(&state));
    stake_amount_for_challenge_pact(&mut state, id(2), 100).unwrap();
    assert_eq!(staked_count(&state), 1);
    assert_eq!(state.challenge_pact.prize_pool, 100 * staked_count(&state));
    stake_amount_for_challenge_pact(&mut state, id(1), 100).unwrap();
    assert_eq!(staked_count(&state), 2);
    assert_eq!(state.challenge_pact.prize_pool, 100 * staked_count(&state));
    stake_amount_for_challenge_pact(&mut state, id(3), 100).unwrap();
    assert_eq!(staked_count(&state), 3);
    assert_eq!(state.challenge_pact.prize_pool, 300);
    assert_eq!(state.vault.balance, 300);
}

#[test]
fn activation_is_all_or_nothing() {
    let mut state = new_pact(100, id(1));
    join_challenge_pact(&mut state, id(2)).unwrap();
    join_challenge_pact(&mut state, id(3)).unwrap();
    stake_amount_for_challenge_pact(&mut state, id(1), 100).unwrap();
    stake_amount_for_challenge_pact(&mut state, id(2), 100).unwrap();
    let r = start_challenge_pact(&mut state, id(1));
    assert!(matches!(r, Err(ErrorCode::NotFullyStaked)));
    assert_eq!(state.challenge_pact.status, PactStatus::Initialized);
    stake_amount_for_challenge_pact(&mut state, id(3), 100).unwrap();
    start_challenge_pact(&mut state, id(1)).unwrap();
    assert_eq!(state.challenge_pact.status, PactStatus::Active);
}

#[test]
fn activation_requires_creator() {
    let mut state = new_pact(100, id(1));
    stake_amount_for_challenge_pact(&mut state, id(1), 100).unwrap();
    let r = start_challenge_pact(&mut state, id(2));
    assert!(matches!(r, Err(ErrorCode::NotCreator)));
    assert_eq!(state.challenge_pact.status, PactStatus::Initialized);
}

#[test]
fn join_rejects_repeats_regardless_of_interleaving() {
    let mut state = new_pact(100, id(1));
    join_challenge_pact(&mut state, id(2)).unwrap();
    let r = join_challenge_pact(&mut state, id(2));
    assert!(matches!(r, Err(ErrorCode::AlreadyJoined)));
    join_challenge_pact(&mut state, id(3)).unwrap();
    join_challenge_pact(&mut state, id(4)).unwrap();
    let r = join_challenge_pact(&mut state, id(2));
    assert!(matches!(r, Err(ErrorCode::AlreadyJoined)));
    let r = join_challenge_pact(&mut state, id(1));
    assert!(matches!(r, Err(ErrorCode::AlreadyJoined)));
    assert_eq!(state.challenge_pact.participants.len(), 4);
}

#[test]
fn join_respects_capacity() {
    let mut state = new_pact(100, id(1));
    for b in 2..=10u8 {
        join_challenge_pact(&mut state, id(b)).unwrap();
    }
    assert_eq!(state.challenge_pact.participants.len(), 10);
    let r = join_challenge_pact(&mut state, id(11));
    assert!(matches!(r, Err(ErrorCode::CapacityExceeded)));
    assert_eq!(state.challenge_pact.participants.len(), 10);
}

#[test]
fn join_requires_initialized_status() {
    let mut state = new_pact(100, id(1));
    stake_amount_for_challenge_pact(&mut state, id(1), 100).unwrap();
    start_challenge_pact(&mut state, id(1)).unwrap();
    let r = join_challenge_pact(&mut state, id(2));
    assert!(matches!(r, Err(ErrorCode::NotInitialized)));
}

#[test]
fn staking_is_monotonic() {
    let mut state = new_pact(100, id(1));
    join_challenge_pact(&mut state, id(2)).unwrap();
    stake_amount_for_challenge_pact(&mut state, id(2), 100).unwrap();
    assert!(state.player_goals[1].has_staked);
    let pool = state.challenge_pact.prize_pool;
    let r = stake_amount_for_challenge_pact(&mut state, id(2), 100);
    assert!(matches!(r, Err(ErrorCode::AlreadyStaked)));
    assert_eq!(state.challenge_pact.prize_pool, pool);
    assert!(state.player_goals[1].has_staked);
}

#[test]
fn staking_rejects_mismatched_amount() {
    let mut state = new_pact(100, id(1));
    let r = stake_amount_for_challenge_pact(&mut state, id(1), 99);
    assert!(matches!(r, Err(ErrorCode::InvalidAmount)));
    let r = stake_amount_for_challenge_pact(&mut state, id(1), 0);
    assert!(matches!(r, Err(ErrorCode::InvalidAmount)));
    assert_eq!(state.challenge_pact.prize_pool, 0);
}

#[test]
fn staking_rejects_outsiders() {
    let mut state = new_pact(100, id(1));
    let r = stake_amount_for_challenge_pact(&mut state, id(5), 100);
    assert!(matches!(r, Err(ErrorCode::MissingParticipantRecord)));
    assert_eq!(state.challenge_pact.prize_pool, 0);
}

#[test]
fn staking_requires_initialized_status() {
    let mut state = new_pact(100, id(1));
    stake_amount_for_challenge_pact(&mut state, id(1), 100).unwrap();
    start_challenge_pact(&mut state, id(1)).unwrap();
    let r = stake_amount_for_challenge_pact(&mut state, id(1), 100);
    assert!(matches!(r, Err(ErrorCode::NotInitialized)));
}

#[test]
fn elimination_updates_one_record() {
    let mut state = new_pact(100, id(1));
    join_challenge_pact(&mut state, id(2)).unwrap();
    stake_amount_for_challenge_pact(&mut state, id(1), 100).unwrap();
    stake_amount_for_challenge_pact(&mut state, id(2), 100).unwrap();
    start_challenge_pact(&mut state, id(1)).unwrap();
    update_player_goal(&mut state, id(2), true, Some(1_700_001_000)).unwrap();
    assert!(state.player_goals[1].is_eliminated);
    assert_eq!(state.player_goals[1].eliminated_at, Some(1_700_001_000));
    assert!(!state.player_goals[0].is_eliminated);
    assert!(state.player_goals[1].has_staked);
    let r = update_player_goal(&mut state, id(7), true, None);
    assert!(matches!(r, Err(ErrorCode::MissingParticipantRecord)));
}

#[test]
fn completion_only_from_active() {
    let mut state = new_pact(100, id(1));
    let r = end_challenge_pact(&mut state, id(1));
    assert!(matches!(r, Err(ErrorCode::AlreadyCompleted)));
    stake_amount_for_challenge_pact(&mut state, id(1), 100).unwrap();
    start_challenge_pact(&mut state, id(1)).unwrap();
    end_challenge_pact(&mut state, id(1)).unwrap();
    assert_eq!(state.challenge_pact.status, PactStatus::Completed);
    let vault_balance = state.vault.balance;
    let r = end_challenge_pact(&mut state, id(1));
    assert!(matches!(r, Err(ErrorCode::AlreadyCompleted)));
    assert_eq!(state.vault.balance, vault_balance);
    assert_eq!(state.challenge_pact.status, PactStatus::Completed);
}

#[test]
fn settlement_split_is_exact() {
    assert_eq!(settlement_split(1000), (10, 990));
    assert_eq!(settlement_split(99), (0, 99));
    assert_eq!(settlement_split(0), (0, 0));
    assert_eq!(settlement_split(300), (3, 297));
    assert_eq!(settlement_split(u64::MAX), (u64::MAX / 100, u64::MAX - u64::MAX / 100));
}

#[test]
fn end_to_end_walkathon() {
    let mut state = new_pact(100, id(1));
    join_challenge_pact(&mut state, id(2)).unwrap();
    join_challenge_pact(&mut state, id(3)).unwrap();
    stake_amount_for_challenge_pact(&mut state, id(1), 100).unwrap();
    stake_amount_for_challenge_pact(&mut state, id(2), 100).unwrap();
    stake_amount_for_challenge_pact(&mut state, id(3), 100).unwrap();
    assert_eq!(state.challenge_pact.prize_pool, 300);
    start_challenge_pact(&mut state, id(1)).unwrap();
    update_player_goal(&mut state, id(1), true, Some(1_700_002_000)).unwrap();
    update_player_goal(&mut state, id(2), true, Some(1_700_003_000)).unwrap();
    let settlement = end_challenge_pact(&mut state, id(3)).unwrap();
    assert_eq!(settlement.fee, 3);
    assert_eq!(settlement.winner_share, 297);
    assert_eq!(settlement.winner.bytes, id(3).bytes);
    assert_eq!(state.vault.balance, 0);
    assert_eq!(state.challenge_pact.status, PactStatus::Completed);
}

#[test]
fn cancellation_refunds_every_staker() {
    let mut state = new_pact(100, id(1));
    join_challenge_pact(&mut state, id(2)).unwrap();
    join_challenge_pact(&mut state, id(3)).unwrap();
    stake_amount_for_challenge_pact(&mut state, id(1), 100).unwrap();
    stake_amount_for_challenge_pact(&mut state, id(3), 100).unwrap();
    let refunds = cancel_challenge_pact(&mut state).unwrap();
    assert_eq!(refunds.len(), 2);
    assert_eq!(refunds[0].player.bytes, id(1).bytes);
    assert_eq!(refunds[0].amount, 100);
    assert_eq!(refunds[1].player.bytes, id(3).bytes);
    assert_eq!(refunds[1].amount, 100);
    assert_eq!(state.challenge_pact.status, PactStatus::Cancelled);
    assert_eq!(state.challenge_pact.prize_pool, 0);
    assert_eq!(state.vault.balance, 0);
}

#[test]
fn cancellation_only_before_activation() {
    let mut state = new_pact(100, id(1));
    stake_amount_for_challenge_pact(&mut state, id(1), 100).unwrap();
    start_challenge_pact(&mut state, id(1)).unwrap();
    let r = cancel_challenge_pact(&mut state);
    assert!(matches!(r, Err(ErrorCode::NotInitialized)));
    assert_eq!(state.challenge_pact.status, PactStatus::Active);
}

#[test]
fn vault_debit_needs_funds() {
    let mut state = new_pact(100, id(1));
    let program = id(9);
    let (_, authority) = VaultAuthority::claim(&program, &state.pact_address).unwrap();
    let r = state.vault.debit(&authority, 1);
    assert!(matches!(r, Err(ErrorCode::InsufficientVaultBalance)));
    assert_eq!(state.vault.balance, 0);
}

#[test]
fn profile_bookkeeping() {
    let mut profile = initialize_player_profile(id(4), String::from("runner"));
    assert_eq!(profile.owner.bytes, id(4).bytes);
    assert_eq!(profile.name, "runner");
    assert!(profile.active_pacts.is_empty());
    assert_eq!(profile.pacts_won, 0);
    assert_eq!(profile.pacts_lost, 0);
    record_active_pact(&mut profile, id(8));
    assert_eq!(profile.active_pacts.len(), 1);
    assert_eq!(profile.active_pacts[0].bytes, id(8).bytes);
    record_pact_outcome(&mut profile, true);
    record_pact_outcome(&mut profile, false);
    record_pact_outcome(&mut profile, false);
    assert_eq!(profile.pacts_won, 1);
    assert_eq!(profile.pacts_lost, 2);
}

#[test]
fn identity_helpers_compare_bytes() {
    assert!(identity_eq(&id(5), &id(5)));
    assert!(!identity_eq(&id(5), &id(6)));
    let roster = vec![id(1), id(2), id(3)];
    assert_eq!(find_identity(&roster, &id(2)), Some(1));
    assert_eq!(find_identity(&roster, &id(9)), None);
}

#[test]
fn defaults_match_vocabulary() {
    assert_eq!(GoalType::default(), GoalType::DailySteps);
    assert_eq!(VerificationType::default(), VerificationType::ScreenTime);
    assert_eq!(ComparisonOperator::default(), ComparisonOperator::GreaterOrEqual);
    assert_eq!(PactStatus::default(), PactStatus::Initialized);
}
