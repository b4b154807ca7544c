use vstd::prelude::*;

use crate::error::RwaError;
use crate::key::Key;
use crate::state::{Authority, StakeVault, Vault};
use crate::vault::{vault_apply, VaultOp};

verus! {

/// The records that setting up an administrator's vault writes.
#[derive(Clone, Copy, Debug)]
pub struct AdminVault {
    pub admin: Key,
    pub admin_vault: Vault,
}

/// The records that setting up an administrator's reward pool writes: the
/// reward token, the pool record, its own identifier, and the holding that
/// pays rewards.
#[derive(Clone, Copy, Debug)]
pub struct InitializeStakeVault {
    pub admin: Key,
    pub cirkle_mint: Key,
    pub admin_vault: StakeVault,
    pub admin_vault_key: Key,
    pub cirkle_vault_ata: Key,
}

/// The records an administrative withdrawal reads and writes.
#[derive(Clone, Copy, Debug)]
pub struct Withdraw {
    pub admin: Key,
    pub vault: Vault,
    pub recipient: Key,
}

/// The records after creating the vault: a vault that does not exist yet
/// is bound to the administrator with an empty balance.
pub open spec fn create_vault_step(ctx: AdminVault, bump: u8) -> AdminVault {
    if ctx.admin_vault.authority.spec_is_unset() {
        AdminVault { admin_vault: Vault { authority: ctx.admin, balance: 0, bump }, ..ctx }
    } else {
        ctx
    }
}

/// The records after an administrative withdrawal, or the error that
/// rejects it.
pub open spec fn withdraw_step(ctx: Withdraw, amount: u64) -> Result<Withdraw, RwaError> {
    if amount == 0 {
        Err(RwaError::AmountNotValid)
    } else {
        match vault_apply(ctx.vault.balance, VaultOp::Withdraw(amount)) {
            Ok(balance) => Ok(Withdraw { vault: Vault { balance, ..ctx.vault }, ..ctx }),
            Err(e) => Err(e),
        }
    }
}

impl AdminVault {
    /// Creates the administrator's vault with an empty balance.
    ///
    /// A vault that already exists keeps its authority, balance and nonce:
    /// creating it again must not erase what it holds.
    pub fn create_vault(&mut self, bump: u8) -> (r: Result<(), RwaError>)
        ensures
            r is Ok,
            *final(self) == create_vault_step(*old(self), bump),
    {
        if self.admin_vault.authority.is_unset() {
            self.admin_vault = Vault { authority: self.admin, balance: 0, bump };
        }
        Ok(())
    }
}

impl InitializeStakeVault {
    /// Records the reward pool of the administrator: the reward token, the
    /// holding that pays it, and the pool's own identifier as its
    /// settlement reference.
    pub fn initialize_stake_vault(&mut self, bump: u8) -> (r: Result<(), RwaError>)
        ensures
            r is Ok,
            final(self).admin_vault == (StakeVault {
                admin: old(self).admin,
                cirkle_mint: old(self).cirkle_mint,
                cirkle_vault: old(self).cirkle_vault_ata,
                sol_vault: old(self).admin_vault_key,
                bump,
            }),
            final(self).admin == old(self).admin,
            final(self).cirkle_mint == old(self).cirkle_mint,
            final(self).admin_vault_key == old(self).admin_vault_key,
            final(self).cirkle_vault_ata == old(self).cirkle_vault_ata,
    {
        self.admin_vault.admin = self.admin;
        self.admin_vault.cirkle_mint = self.cirkle_mint;
        self.admin_vault.cirkle_vault = self.cirkle_vault_ata;
        self.admin_vault.sol_vault = self.admin_vault_key;
        self.admin_vault.bump = bump;
        Ok(())
    }
}

impl Withdraw {
    /// Whether the withdrawing administrator owns the vault.
    pub open spec fn spec_admin_owns_vault(&self) -> bool {
        self.admin == self.vault.authority
    }

    /// Pays `amount` from the vault to the recipient.
    ///
    /// Rejects a zero amount (`AmountNotValid`) and an amount above the
    /// balance (`InsufficientFunds`), leaving the vault as it was.
    pub fn withdraw(&mut self, amount: u64) -> (r: Result<(), RwaError>)
        requires
            old(self).spec_admin_owns_vault(),
        ensures
            match withdraw_step(*old(self), amount) {
                Ok(after) => r is Ok && *final(self) == after,
                Err(e) => r == Err::<(), RwaError>(e) && *final(self) == *old(self),
            },
    {
        if amount == 0 {
            return Err(RwaError::AmountNotValid);
        }
        let proof = Authority::vault(self.admin, self.vault.bump);
        let mut vault = self.vault;
        match vault.withdraw(amount, &proof) {
            Ok(()) => {},
            Err(e) => return Err(e),
        }
        self.vault = vault;
        Ok(())
    }
}

} // verus!
