use vstd::prelude::*;

use crate::ident::{identity_to_vec, Identity};

verus! {

/// What `Pubkey::try_find_program_address` returns for the given seed
/// byte-strings and 32-byte program identifier: a derived sub-account
/// address together with the bump seed that authorizes the issuing program
/// to act on it, or nothing in the statistically improbable event that no
/// bump seed yields a valid address (or when the seeds break the
/// derivation limits). A pure function of its arguments: the same seeds
/// and program identifier always yield the same output.
pub uninterp spec fn derived_address(seeds: Seq<Seq<u8>>, program_id: Seq<u8>) -> Option<(
    Seq<u8>,
    u8,
)>;

/// What `str::as_bytes` returns: the UTF-8 encoding of the text, a function
/// of its characters alone.
pub uninterp spec fn utf8_bytes(text: Seq<char>) -> Seq<u8>;

/// How an executable derivation result relates to the mathematical one:
/// both fail, or both yield the same address bytes and bump seed.
pub open spec fn matches_derivation(r: Option<(Identity, u8)>, d: Option<(Seq<u8>, u8)>) -> bool {
    match (r, d) {
        (Some((id, id_bump)), Some((addr, addr_bump))) => id@ == addr && id_bump == addr_bump,
        (None, None) => true,
        _ => false,
    }
}

/// Relies on `solana_pubkey::Pubkey::try_find_program_address`: off-chain
/// it recomputes the program-derived address by hashing the seed bytes, the
/// program identifier and a candidate bump seed, so its result depends on
/// those bytes alone, and a returned address is always 32 bytes.
#[verifier::external_body]
fn find_derived_address(seeds: &Vec<Vec<u8>>, program_id: &Identity) -> (r: Option<(Identity, u8)>)
    ensures
        matches_derivation(r, derived_address(seeds@.map_values(|s: Vec<u8>| s@), program_id@)),
{
    let seed_slices: Vec<&[u8]> = seeds.iter().map(|s| s.as_slice()).collect();
    let program = solana_pubkey::Pubkey::new_from_array(program_id.bytes);
    match solana_pubkey::Pubkey::try_find_program_address(&seed_slices, &program) {
        Some((address, bump)) => Some((Identity { bytes: address.to_bytes() }, bump)),
        None => None,
    }
}

/// Relies on `str::as_bytes`: the bytes are the UTF-8 encoding of the text.
#[verifier::external_body]
fn text_bytes(text: &str) -> (r: Vec<u8>)
    ensures
        r@ == utf8_bytes(text@),
{
    text.as_bytes().to_vec()
}

/// Seeds of a player-profile record: namespaced by its own label, so a
/// profile can never collide with a record of another kind.
pub open spec fn profile_seeds(player: Seq<u8>) -> Seq<Seq<u8>> {
    seq![utf8_bytes("player_profile"@), player]
}

/// Seeds of a challenge-pact record: its label, the pact's name, and the
/// creator's identity.
pub open spec fn pact_seeds(name: Seq<char>, creator: Seq<u8>) -> Seq<Seq<u8>> {
    seq![utf8_bytes("challenge_pact"@), utf8_bytes(name), creator]
}

/// Seeds of a participant's per-pact stake record.
pub open spec fn goal_seeds(player: Seq<u8>, pact: Seq<u8>) -> Seq<Seq<u8>> {
    seq![utf8_bytes("player_pact_profile"@), player, pact]
}

/// Seeds of a pact's escrow vault.
pub open spec fn vault_seeds(pact: Seq<u8>) -> Seq<Seq<u8>> {
    seq![utf8_bytes("pact_vault"@), pact]
}

/// Derive the address of `player`'s profile record under `program`.
pub fn derive_player_profile_address(program: &Identity, player: &Identity) -> (r: Option<
    (Identity, u8),
>)
    ensures
        matches_derivation(r, derived_address(profile_seeds(player@), program@)),
{
    let mut seeds: Vec<Vec<u8>> = Vec::new();
    seeds.push(text_bytes("player_profile"));
    seeds.push(identity_to_vec(player));
    proof {
        assert(seeds@.map_values(|s: Vec<u8>| s@) =~= profile_seeds(player@));
    }
    find_derived_address(&seeds, program)
}

/// Derive the address of the pact that `creator` proposes under `name`.
pub fn derive_challenge_pact_address(program: &Identity, name: &str, creator: &Identity) -> (r:
    Option<(Identity, u8)>)
    ensures
        matches_derivation(r, derived_address(pact_seeds(name@, creator@), program@)),
{
    let mut seeds: Vec<Vec<u8>> = Vec::new();
    seeds.push(text_bytes("challenge_pact"));
    seeds.push(text_bytes(name));
    seeds.push(identity_to_vec(creator));
    proof {
        assert(seeds@.map_values(|s: Vec<u8>| s@) =~= pact_seeds(name@, creator@));
    }
    find_derived_address(&seeds, program)
}

/// Derive the address of `player`'s stake record for the pact at `pact`.
pub fn derive_player_goal_address(program: &Identity, player: &Identity, pact: &Identity) -> (r:
    Option<(Identity, u8)>)
    ensures
        matches_derivation(r, derived_address(goal_seeds(player@, pact@), program@)),
{
    let mut seeds: Vec<Vec<u8>> = Vec::new();
    seeds.push(text_bytes("player_pact_profile"));
    seeds.push(identity_to_vec(player));
    seeds.push(identity_to_vec(pact));
    proof {
        assert(seeds@.map_values(|s: Vec<u8>| s@) =~= goal_seeds(player@, pact@));
    }
    find_derived_address(&seeds, program)
}

/// Derive the address of the escrow vault bound to the pact at `pact`.
pub fn derive_pact_vault_address(program: &Identity, pact: &Identity) -> (r: Option<
    (Identity, u8),
>)
    ensures
        matches_derivation(r, derived_address(vault_seeds(pact@), program@)),
{
    let mut seeds: Vec<Vec<u8>> = Vec::new();
    seeds.push(text_bytes("pact_vault"));
    seeds.push(identity_to_vec(pact));
    proof {
        assert(seeds@.map_values(|s: Vec<u8>| s@) =~= vault_seeds(pact@));
    }
    find_derived_address(&seeds, program)
}

/// A capability standing for the vault's derivation proof: holding one
/// means the holder reproduced the escrow vault's derivation, and the vault
/// honors debits solely through it — no participant signature can move
/// escrowed funds. Only this module can construct the value, and only from
/// a successful derivation.
pub struct VaultAuthority {
    vault: Identity,
    bump: u8,
}

impl VaultAuthority {
    /// The bytes of the vault address this capability controls.
    pub closed spec fn vault_id(self) -> Seq<u8> {
        self.vault@
    }

    /// The bump seed the derivation produced.
    pub closed spec fn bump_value(self) -> u8 {
        self.bump
    }

    /// Whether this capability authorizes debits from a vault standing at
    /// `address` with derivation bump `bump`.
    pub open spec fn authorizes(self, address: Seq<u8>, bump: u8) -> bool {
        self.vault_id() == address && self.bump_value() == bump
    }

    /// Derive the escrow vault of the pact at `pact` and claim authority
    /// over it.
    pub fn claim(program: &Identity, pact: &Identity) -> (r: Option<(Identity, VaultAuthority)>)
        ensures
            (match (r, derived_address(vault_seeds(pact@), program@)) {
                (Some((id, auth)), Some((addr, addr_bump))) => id@ == addr && auth.vault_id()
                    == addr && auth.bump_value() == addr_bump,
                (None, None) => true,
                _ => false,
            }),
    {
        match derive_pact_vault_address(program, pact) {
            Some((id, bump)) => Some((id, VaultAuthority { vault: id, bump })),
            None => None,
        }
    }

    /// The bump seed, for recording in the pact it authorizes.
    pub fn bump(&self) -> (r: u8)
        ensures
            r == self.bump_value(),
    {
        self.bump
    }
}

} // verus!
