use vstd::prelude::*;

use crate::error::RwaError;
use crate::state::{Authority, Vault};

verus! {

/// A request against a vault balance.
#[derive(Clone, Copy, Debug, PartialEq, Eq, Structural)]
pub enum VaultOp {
    Deposit(u64),
    Withdraw(u64),
}

/// The balance after `op`, or the error that rejects it.
pub open spec fn vault_apply(balance: u64, op: VaultOp) -> Result<u64, RwaError> {
    match op {
        VaultOp::Deposit(amount) => {
            if balance + amount > u64::MAX {
                Err(RwaError::Overflow)
            } else {
                Ok((balance + amount) as u64)
            }
        },
        VaultOp::Withdraw(amount) => {
            if amount == 0 {
                Err(RwaError::InvalidAmount)
            } else if balance < amount {
                Err(RwaError::InsufficientFunds)
            } else {
                Ok((balance - amount) as u64)
            }
        },
    }
}

/// The balance after `ops` in order, where a rejected request changes nothing.
pub open spec fn vault_run(balance: u64, ops: Seq<VaultOp>) -> u64
    decreases ops.len(),
{
    if ops.len() == 0 {
        balance
    } else {
        let before = vault_run(balance, ops.drop_last());
        match vault_apply(before, ops.last()) {
            Ok(after) => after,
            Err(_) => before,
        }
    }
}

/// Sum of the deposits among `ops` that were accepted.
pub open spec fn accepted_deposits(balance: u64, ops: Seq<VaultOp>) -> int
    decreases ops.len(),
{
    if ops.len() == 0 {
        0
    } else {
        let before = vault_run(balance, ops.drop_last());
        let earlier = accepted_deposits(balance, ops.drop_last());
        match ops.last() {
            VaultOp::Deposit(amount) => if vault_apply(before, ops.last()) is Ok {
                earlier + amount
            } else {
                earlier
            },
            VaultOp::Withdraw(_) => earlier,
        }
    }
}

/// Sum of the withdrawals among `ops` that were accepted.
pub open spec fn accepted_withdrawals(balance: u64, ops: Seq<VaultOp>) -> int
    decreases ops.len(),
{
    if ops.len() == 0 {
        0
    } else {
        let before = vault_run(balance, ops.drop_last());
        let earlier = accepted_withdrawals(balance, ops.drop_last());
        match ops.last() {
            VaultOp::Withdraw(amount) => if vault_apply(before, ops.last()) is Ok {
                earlier + amount
            } else {
                earlier
            },
            VaultOp::Deposit(_) => earlier,
        }
    }
}

/// Whatever requests a vault receives, its balance is the starting balance
/// plus the accepted deposits minus the accepted withdrawals, and it never
/// goes below zero.
pub proof fn lemma_vault_balance_is_net_flow(balance: u64, ops: Seq<VaultOp>)
    ensures
        vault_run(balance, ops) == balance + accepted_deposits(balance, ops)
            - accepted_withdrawals(balance, ops),
        vault_run(balance, ops) >= 0,
    decreases ops.len(),
{
    if ops.len() > 0 {
        lemma_vault_balance_is_net_flow(balance, ops.drop_last());
    }
}

impl Vault {
    /// Adds `amount` to the balance; fails with `Overflow` when the sum does
    /// not fit.
    pub fn deposit(&mut self, amount: u64) -> (r: Result<(), RwaError>)
        ensures
            match vault_apply(old(self).balance, VaultOp::Deposit(amount)) {
                Ok(b) => r is Ok && final(self).balance == b,
                Err(e) => r == Err::<(), RwaError>(e) && final(self).balance == old(self).balance,
            },
            final(self).authority == old(self).authority,
            final(self).bump == old(self).bump,
    {
        match self.balance.checked_add(amount) {
            Some(b) => {
                self.balance = b;
                Ok(())
            },
            None => Err(RwaError::Overflow),
        }
    }

    /// Takes `amount` out of the balance, for the holder of the vault's
    /// capability. Fails with `InvalidAmount` on zero and with
    /// `InsufficientFunds` when the balance is short.
    pub fn withdraw(&mut self, amount: u64, proof: &Authority) -> (r: Result<(), RwaError>)
        requires
            proof.spec_controls_vault(*old(self)),
        ensures
            match vault_apply(old(self).balance, VaultOp::Withdraw(amount)) {
                Ok(b) => r is Ok && final(self).balance == b,
                Err(e) => r == Err::<(), RwaError>(e) && final(self).balance == old(self).balance,
            },
            final(self).authority == old(self).authority,
            final(self).bump == old(self).bump,
    {
        if amount == 0 {
            return Err(RwaError::InvalidAmount);
        }
        if self.balance < amount {
            return Err(RwaError::InsufficientFunds);
        }
        self.balance = self.balance - amount;
        Ok(())
    }
}

} // verus!
