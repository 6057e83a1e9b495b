use vstd::prelude::*;

use crate::deriver::VaultAuthority;
use crate::errors::ErrorCode;
use crate::ident::Identity;
use crate::vault::EscrowVault;

verus! {

/// The protocol fee owed on a prize pool: one percent, rounded toward zero
/// by integer division, favoring the winner by at most a fraction of a
/// unit.
pub open spec fn protocol_fee(prize_pool: u64) -> int {
    prize_pool as int / 100
}

/// The two movements that settle a pact: the fee to the protocol's
/// collection account and the remainder to the declared winner.
#[derive(Clone, Copy, Debug)]
pub struct Settlement {
    /// The declared winner the remainder is owed to.
    pub winner: Identity,
    /// The protocol's cut.
    pub fee: u64,
    /// The winner's cut: the prize pool minus the fee.
    pub winner_share: u64,
}

/// Split a prize pool into the protocol fee and the winner's share.
/// Conservation is exact: the two parts always sum back to the pool.
pub fn settlement_split(prize_pool: u64) -> (r: (u64, u64))
    ensures
        r.0 == protocol_fee(prize_pool),
        r.0 + r.1 == prize_pool,
{
    let fee = prize_pool / 100;
    (fee, prize_pool - fee)
}

/// One participant's refund when a pact is cancelled before activation.
#[derive(Clone, Copy, Debug)]
pub struct Refund {
    pub player: Identity,
    pub amount: u64,
}

/// Settle a prize pool of `prize_pool` out of `vault` in favor of
/// `winner`: debit the fee and the winner's share, together exactly the
/// pool, leaving custody of them to the two returned movements. All or
/// nothing: when the vault cannot cover the pool, nothing moves.
pub fn settle(
    vault: &mut EscrowVault,
    authority: &VaultAuthority,
    prize_pool: u64,
    winner: Identity,
) -> (r: Result<Settlement, ErrorCode>)
    requires
        authority.authorizes(old(vault).address@, old(vault).bump),
    ensures
        final(vault).address == old(vault).address,
        final(vault).bump == old(vault).bump,
        (match r {
            Ok(s) => prize_pool <= old(vault).balance && final(vault).balance == old(vault).balance
                - prize_pool && s.winner == winner && s.fee == protocol_fee(prize_pool) && s.fee
                + s.winner_share == prize_pool,
            Err(e) => e == ErrorCode::InsufficientVaultBalance && prize_pool > old(vault).balance
                && final(vault).balance == old(vault).balance,
        }),
{
    if prize_pool > vault.balance {
        return Err(ErrorCode::InsufficientVaultBalance);
    }
    let (fee, winner_share) = settlement_split(prize_pool);
    let fee_debit = vault.debit(authority, fee);
    proof {
        assert(fee_debit is Ok);
    }
    let share_debit = vault.debit(authority, winner_share);
    proof {
        assert(share_debit is Ok);
    }
    Ok(Settlement { winner, fee, winner_share })
}

} // verus!
