use pact::deriver::{
    derive_challenge_pact_address, derive_pact_vault_address, derive_player_goal_address,
    derive_player_profile_address, VaultAuthority,
};
use pact::ident::Identity;

fn id(b: u8) -> Identity {
    Identity { bytes: [b; 32] }
}

#[test]
fn derivation_is_deterministic() {
    let program = id(9);
    let creator = id(1);
    let a = derive_challenge_pact_address(&program, "walkathon", &creator).unwrap();
    let b = derive_challenge_pact_address(&program, "walkathon", &creator).unwrap();
    assert_eq!(a.0.bytes, b.0.bytes);
    assert_eq!(a.1, b.1);
}

#[test]
fn derivation_depends_on_every_component() {
    let program = id(9);
    let creator = id(1);
    let base = derive_challenge_pact_address(&program, "walkathon", &creator).unwrap();
    let other_name = derive_challenge_pact_address(&program, "readathon", &creator).unwrap();
    let other_creator = derive_challenge_pact_address(&program, "walkathon", &id(2)).unwrap();
    let other_program = derive_challenge_pact_address(&id(8), "walkathon", &creator).unwrap();
    assert_ne!(base.0.bytes, other_name.0.bytes);
    assert_ne!(base.0.bytes, other_creator.0.bytes);
    assert_ne!(base.0.bytes, other_program.0.bytes);
}

#[test]
fn derivation_namespaces_record_kinds() {
    let program = id(9);
    let player = id(1);
    let profile = derive_player_profile_address(&program, &player).unwrap();
    let vault = derive_pact_vault_address(&program, &player).unwrap();
    let goal = derive_player_goal_address(&program, &player, &player).unwrap();
    assert_ne!(profile.0.bytes, vault.0.bytes);
    assert_ne!(profile.0.bytes, goal.0.bytes);
    assert_ne!(vault.0.bytes, goal.0.bytes);
    assert_ne!(profile.0.bytes, program.bytes);
    assert_ne!(profile.0.bytes, player.bytes);
}

#[test]
fn derivation_matches_the_custody_runtime() {
    let program = id(9);
    let player = id(1);
    let pact = id(2);
    let program_key = solana_pubkey::Pubkey::new_from_array(program.bytes);

    let (expected, expected_bump) = solana_pubkey::Pubkey::find_program_address(
        &[b"player_profile", &player.bytes],
        &program_key,
    );
    let (derived, bump) = derive_player_profile_address(&program, &player).unwrap();
    assert_eq!(derived.bytes, expected.to_bytes());
    assert_eq!(bump, expected_bump);

    let (expected, expected_bump) = solana_pubkey::Pubkey::find_program_address(
        &[b"challenge_pact", b"walkathon", &player.bytes],
        &program_key,
    );
    let (derived, bump) = derive_challenge_pact_address(&program, "walkathon", &player).unwrap();
    assert_eq!(derived.bytes, expected.to_bytes());
    assert_eq!(bump, expected_bump);

    let (expected, expected_bump) = solana_pubkey::Pubkey::find_program_address(
        &[b"player_pact_profile", &player.bytes, &pact.bytes],
        &program_key,
    );
    let (derived, bump) = derive_player_goal_address(&program, &player, &pact).unwrap();
    assert_eq!(derived.bytes, expected.to_bytes());
    assert_eq!(bump, expected_bump);

    let (expected, expected_bump) = solana_pubkey::Pubkey::find_program_address(
        &[b"pact_vault", &pact.bytes],
        &program_key,
    );
    let (derived, bump) = derive_pact_vault_address(&program, &pact).unwrap();
    assert_eq!(derived.bytes, expected.to_bytes());
    assert_eq!(bump, expected_bump);
}

#[test]
fn claimed_authority_matches_vault_derivation() {
    let program = id(9);
    let pact = id(2);
    let (vault_addr, authority) = VaultAuthority::claim(&program, &pact).unwrap();
    let (derived, bump) = derive_pact_vault_address(&program, &pact).unwrap();
    assert_eq!(vault_addr.bytes, derived.bytes);
    assert_eq!(authority.bump(), bump);
}
