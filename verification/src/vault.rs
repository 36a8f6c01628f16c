use crate::states::Pubkey;
use vstd::prelude::*;

verus! {

/// Why the vault refuses to move funds.
#[derive(Clone, Copy, Debug, PartialEq, Eq, Structural)]
pub enum VaultError {
    VaultLocked,
    InsufficientBalance,
    Overflow,
}

/// Announces a withdrawal.
#[derive(Clone, Copy, Debug, PartialEq, Eq)]
pub struct WithdrawEvent {
    pub amount: u64,
    pub vault_authority: Pubkey,
    pub vault: Pubkey,
}

/// Announces a deposit.
#[derive(Clone, Copy, Debug, PartialEq, Eq)]
pub struct DepositEvent {
    pub amount: u64,
    pub vault: Pubkey,
    pub user: Pubkey,
}

/// What a withdrawal works on: the vault's owner and the vault, each with its balance, and
/// the vault's lock.
#[derive(Clone, Copy, Debug, PartialEq, Eq)]
pub struct Withdraw {
    pub vault_authority: Pubkey,
    pub authority_lamports: u64,
    pub vault: Pubkey,
    pub vault_lamports: u64,
    pub locked: bool,
}

impl Withdraw {
    /// Why `amount` cannot be withdrawn, if it cannot: the first rule that it breaks.
    pub open spec fn refusal(&self, amount: u64) -> Option<VaultError> {
        if self.locked {
            Some(VaultError::VaultLocked)
        } else if self.vault_lamports < amount {
            Some(VaultError::InsufficientBalance)
        } else if self.authority_lamports + amount > u64::MAX {
            Some(VaultError::Overflow)
        } else {
            None
        }
    }

    /// The balances after `amount` has moved from the vault to its owner.
    pub open spec fn after(&self, amount: u64) -> Withdraw {
        Withdraw {
            authority_lamports: (self.authority_lamports + amount) as u64,
            vault_lamports: (self.vault_lamports - amount) as u64,
            ..*self
        }
    }
}

/// Moves `amount` from the vault to its owner, unless the vault is locked, holds less, or
/// the owner's balance would overflow. A refused withdrawal moves nothing.
pub fn _withdraw(ctx: &mut Withdraw, amount: u64) -> (result: Result<WithdrawEvent, VaultError>)
    ensures
        match result {
            Ok(event) => {
                &&& old(ctx).refusal(amount) is None
                &&& *final(ctx) == old(ctx).after(amount)
                &&& event == (WithdrawEvent {
                    amount,
                    vault_authority: old(ctx).vault_authority,
                    vault: old(ctx).vault,
                })
            },
            Err(e) => old(ctx).refusal(amount) == Some(e) && *final(ctx) == *old(ctx),
        },
        result is Ok ==> final(ctx).vault_lamports + final(ctx).authority_lamports == old(
            ctx,
        ).vault_lamports + old(ctx).authority_lamports,
{
    if ctx.locked {
        return Err(VaultError::VaultLocked);
    }
    if ctx.vault_lamports < amount {
        return Err(VaultError::InsufficientBalance);
    }
    let raised: u64 = match ctx.authority_lamports.checked_add(amount) {
        Some(sum) => sum,
        None => {
            return Err(VaultError::Overflow);
        },
    };
    ctx.vault_lamports = ctx.vault_lamports - amount;
    ctx.authority_lamports = raised;
    Ok(WithdrawEvent { amount, vault_authority: ctx.vault_authority, vault: ctx.vault })
}

/// What a deposit is decided on: the depositor with their balance, the vault and its lock.
#[derive(Clone, Copy, Debug, PartialEq, Eq)]
pub struct Deposit {
    pub user: Pubkey,
    pub user_lamports: u64,
    pub vault: Pubkey,
    pub locked: bool,
}

impl Deposit {
    /// Why `amount` cannot be deposited, if it cannot: the first rule that it breaks.
    pub open spec fn refusal(&self, amount: u64) -> Option<VaultError> {
        if self.locked {
            Some(VaultError::VaultLocked)
        } else if amount == 0 || self.user_lamports < amount {
            Some(VaultError::InsufficientBalance)
        } else {
            None
        }
    }
}

/// Decides a deposit of `amount`: it is in order unless the vault is locked, the amount is
/// zero or the depositor holds less. The announcement returned for a deposit that is in
/// order names the transfer to make, from the depositor to the vault.
pub fn _deposit(ctx: &Deposit, amount: u64) -> (result: Result<DepositEvent, VaultError>)
    ensures
        match result {
            Ok(event) => ctx.refusal(amount) is None && event == (DepositEvent {
                amount,
                vault: ctx.vault,
                user: ctx.user,
            }),
            Err(e) => ctx.refusal(amount) == Some(e),
        },
{
    if ctx.locked {
        return Err(VaultError::VaultLocked);
    }
    if amount == 0 {
        return Err(VaultError::InsufficientBalance);
    }
    if ctx.user_lamports < amount {
        return Err(VaultError::InsufficientBalance);
    }
    Ok(DepositEvent { amount, vault: ctx.vault, user: ctx.user })
}

} // verus!
