use vstd::prelude::*;

use crate::deriver::VaultAuthority;
use crate::errors::ErrorCode;
use crate::ident::Identity;

verus! {

/// A pact's custody account: it holds the staked funds until settlement,
/// addressed by deterministic derivation from the pact's identifier.
/// Credits arrive as participants stake; the only debits are the two
/// settlement movements and the cancellation refund, all of which demand
/// the vault's derivation proof — no external signer can move these funds.
#[derive(Clone, Copy, Debug)]
pub struct EscrowVault {
    /// The vault's derived address.
    pub address: Identity,
    /// The bump seed of its derivation.
    pub bump: u8,
    /// The custody balance.
    pub balance: u64,
}

impl EscrowVault {
    /// Receive `amount` into custody.
    pub fn credit(&mut self, amount: u64)
        requires
            old(self).balance + amount <= u64::MAX,
        ensures
            final(self).balance == old(self).balance + amount,
            final(self).address == old(self).address,
            final(self).bump == old(self).bump,
    {
        self.balance = self.balance + amount;
    }

    /// Release `amount` from custody, authorized solely by the vault's
    /// derivation proof. Fails, leaving the balance untouched, exactly when
    /// the debit would exceed the custody balance.
    pub fn debit(&mut self, authority: &VaultAuthority, amount: u64) -> (r: Result<(), ErrorCode>)
        requires
            authority.authorizes(old(self).address@, old(self).bump),
        ensures
            final(self).address == old(self).address,
            final(self).bump == old(self).bump,
            (match r {
                Ok(()) => amount <= old(self).balance && final(self).balance == old(self).balance
                    - amount,
                Err(e) => e == ErrorCode::InsufficientVaultBalance && amount > old(self).balance
                    && final(self).balance == old(self).balance,
            }),
    {
        if amount > self.balance {
            return Err(ErrorCode::InsufficientVaultBalance);
        }
        self.balance = self.balance - amount;
        Ok(())
    }
}

} // verus!
