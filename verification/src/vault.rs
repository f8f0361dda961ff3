use crate::address::Address;
use crate::derivation::derived;
use crate::error::{OperationError, VaultError};
use crate::ledger::{after_transfer, transfer, transfer_result, Account, Authority, Transfer};
use vstd::prelude::*;

verus! {

/// The accounts that one operation on a vault works with: the owner who acts, the owner's
/// vault, and the bump that re-derives the vault's address.
#[derive(Clone, Copy, Debug, PartialEq, Eq)]
pub struct VaultAction {
    pub signer: Account,
    pub vault: Account,
    pub bump: u8,
}

/// A deposit needs an empty vault.
pub fn require_empty(vault_lamports: u64) -> (result: Result<(), VaultError>)
    ensures
        vault_lamports == 0 ==> result == Ok::<(), VaultError>(()),
        vault_lamports != 0 ==> result == Err::<(), VaultError>(VaultError::VaultAlreadyExists),
{
    if vault_lamports != 0 {
        Err(VaultError::VaultAlreadyExists)
    } else {
        Ok(())
    }
}

/// A deposit must exceed what the ledger wants left in any account that it keeps.
pub fn require_above_reserve(amount: u64, reserve_threshold: u64) -> (result: Result<(), VaultError>)
    ensures
        amount > reserve_threshold ==> result == Ok::<(), VaultError>(()),
        amount <= reserve_threshold ==> result == Err::<(), VaultError>(VaultError::InvalidAmount),
{
    if amount > reserve_threshold {
        Ok(())
    } else {
        Err(VaultError::InvalidAmount)
    }
}

impl VaultAction {
    /// The vault is the one that derives from the signer, and the bump is the one that the
    /// derivation found.
    pub open spec fn bound(self) -> bool {
        derived(self.signer.key@) == Some((self.vault.key@, self.bump))
    }

    /// Whether the vault holds nothing, which is how a vault that was never used looks too.
    pub open spec fn is_empty(self) -> bool {
        self.vault.lamports == 0
    }

    /// What the two accounts hold together.
    pub open spec fn total(self) -> int {
        self.signer.lamports + self.vault.lamports
    }

    /// The transfer that a deposit of `amount` asks for, or why the vault refuses it.
    pub open spec fn deposit_plan(self, amount: u64, reserve_threshold: u64) -> Result<Transfer, VaultError> {
        if self.vault.lamports != 0 {
            Err(VaultError::VaultAlreadyExists)
        } else if amount <= reserve_threshold {
            Err(VaultError::InvalidAmount)
        } else {
            Ok(
                Transfer {
                    from: self.signer.key,
                    to: self.vault.key,
                    lamports: amount,
                    authority: Authority::Owner,
                },
            )
        }
    }

    /// The transfer that a withdrawal asks for, or why the vault refuses it.
    pub open spec fn withdraw_plan(self) -> Result<Transfer, VaultError> {
        if self.vault.lamports == 0 {
            Err(VaultError::InvalidAmount)
        } else {
            Ok(
                Transfer {
                    from: self.vault.key,
                    to: self.signer.key,
                    lamports: self.vault.lamports,
                    authority: Authority::Derived { owner: self.signer.key, bump: self.bump },
                },
            )
        }
    }

    /// How a deposit of `amount` ends.
    pub open spec fn deposit_result(self, amount: u64, reserve_threshold: u64) -> Result<(), OperationError> {
        match self.deposit_plan(amount, reserve_threshold) {
            Err(refusal) => Err(OperationError::Vault(refusal)),
            Ok(order) => match transfer_result(self.signer, self.vault, order.lamports) {
                Err(failure) => Err(OperationError::Transfer(failure)),
                Ok(()) => Ok(()),
            },
        }
    }

    /// The accounts after a deposit of `amount`: the amount has moved to the vault if the
    /// deposit succeeded, and nothing has moved if it did not.
    pub open spec fn after_deposit(self, amount: u64, reserve_threshold: u64) -> VaultAction {
        match self.deposit_plan(amount, reserve_threshold) {
            Err(_) => self,
            Ok(order) => {
                let (signer, vault) = after_transfer(self.signer, self.vault, order.lamports);
                VaultAction { signer, vault, bump: self.bump }
            },
        }
    }

    /// How a withdrawal ends.
    pub open spec fn withdraw_result(self) -> Result<(), OperationError> {
        match self.withdraw_plan() {
            Err(refusal) => Err(OperationError::Vault(refusal)),
            Ok(order) => match transfer_result(self.vault, self.signer, order.lamports) {
                Err(failure) => Err(OperationError::Transfer(failure)),
                Ok(()) => Ok(()),
            },
        }
    }

    /// The accounts after a withdrawal: all that the vault held has moved to the owner if the
    /// withdrawal succeeded, and nothing has moved if it did not.
    pub open spec fn after_withdraw(self) -> VaultAction {
        match self.withdraw_plan() {
            Err(_) => self,
            Ok(order) => {
                let (vault, signer) = after_transfer(self.vault, self.signer, order.lamports);
                VaultAction { signer, vault, bump: self.bump }
            },
        }
    }

    /// Takes the two accounts for an operation if `derivation`, the result of deriving the
    /// signer's vault, arrives at the vault account.
    pub fn from_derivation(signer: Account, vault: Account, derivation: Option<(Address, u8)>) -> (accounts:
        Option<VaultAction>)
        ensures
            accounts == match derivation {
                Some((address, bump)) if address == vault.key => Some(VaultAction { signer, vault, bump }),
                _ => None::<VaultAction>,
            },
    {
        match derivation {
            Some((address, bump)) => if address == vault.key {
                Some(VaultAction { signer, vault, bump })
            } else {
                None
            },
            None => None,
        }
    }

    /// Takes the two accounts for an operation if the vault account is the signer's own vault.
    pub fn new(signer: Account, vault: Account) -> (accounts: Option<VaultAction>)
        ensures
            match accounts {
                Some(action) => action.signer == signer && action.vault == vault && action.bound(),
                None => forall|bump: u8| derived(signer.key@) != Some((vault.key@, bump)),
            },
    {
        let derivation = crate::derivation::derive(&signer.key);
        proof {
            if let Some((address, bump)) = derivation {
                Address::lemma_equal_by_bytes(address, vault.key);
            }
        }
        VaultAction::from_derivation(signer, vault, derivation)
    }

    /// Decides on a deposit of `amount`: the transfer to make, or the refusal.
    pub fn plan_deposit(&self, amount: u64, reserve_threshold: u64) -> (plan: Result<Transfer, VaultError>)
        ensures
            plan == self.deposit_plan(amount, reserve_threshold),
    {
        match require_empty(self.vault.lamports) {
            Err(refusal) => Err(refusal),
            Ok(()) => match require_above_reserve(amount, reserve_threshold) {
                Err(refusal) => Err(refusal),
                Ok(()) => Ok(
                    Transfer {
                        from: self.signer.key,
                        to: self.vault.key,
                        lamports: amount,
                        authority: Authority::Owner,
                    },
                ),
            },
        }
    }

    /// Decides on a withdrawal: the transfer to make, which sweeps the vault, or the refusal.
    pub fn plan_withdraw(&self) -> (plan: Result<Transfer, VaultError>)
        ensures
            plan == self.withdraw_plan(),
    {
        if self.vault.lamports == 0 {
            Err(VaultError::InvalidAmount)
        } else {
            Ok(
                Transfer {
                    from: self.vault.key,
                    to: self.signer.key,
                    lamports: self.vault.lamports,
                    authority: Authority::Derived { owner: self.signer.key, bump: self.bump },
                },
            )
        }
    }
}

/// Deposits `amount` from the signer into the signer's vault.
///
/// The vault must be empty and the amount must exceed `reserve_threshold`, the balance that
/// the ledger currently wants left in an account. Either all of the amount moves or nothing does.
pub fn deposit(ctx: &mut VaultAction, amount: u64, reserve_threshold: u64) -> (result: Result<(), OperationError>)
    ensures
        result == old(ctx).deposit_result(amount, reserve_threshold),
        *final(ctx) == old(ctx).after_deposit(amount, reserve_threshold),
        old(ctx).vault.lamports != 0 ==> result == Err::<(), OperationError>(
            OperationError::Vault(VaultError::VaultAlreadyExists),
        ),
        old(ctx).vault.lamports == 0 && amount <= reserve_threshold ==> result == Err::<(), OperationError>(
            OperationError::Vault(VaultError::InvalidAmount),
        ),
        result is Ok ==> final(ctx).vault.lamports == amount && final(ctx).signer.lamports == old(
            ctx,
        ).signer.lamports - amount,
        result is Err ==> *final(ctx) == *old(ctx),
{
    let order = match ctx.plan_deposit(amount, reserve_threshold) {
        Ok(order) => order,
        Err(refusal) => {
            return Err(OperationError::Vault(refusal));
        },
    };
    match transfer(&mut ctx.signer, &mut ctx.vault, order.lamports) {
        Ok(()) => Ok(()),
        Err(failure) => Err(OperationError::Transfer(failure)),
    }
}

/// Withdraws all that the vault holds to the signer, and leaves the vault empty.
pub fn withdraw(ctx: &mut VaultAction) -> (result: Result<(), OperationError>)
    ensures
        result == old(ctx).withdraw_result(),
        *final(ctx) == old(ctx).after_withdraw(),
        old(ctx).vault.lamports == 0 ==> result == Err::<(), OperationError>(
            OperationError::Vault(VaultError::InvalidAmount),
        ),
        result is Ok ==> final(ctx).vault.lamports == 0 && final(ctx).signer.lamports == old(
            ctx,
        ).signer.lamports + old(ctx).vault.lamports,
        result is Err ==> *final(ctx) == *old(ctx),
{
    let order = match ctx.plan_withdraw() {
        Ok(order) => order,
        Err(refusal) => {
            return Err(OperationError::Vault(refusal));
        },
    };
    match transfer(&mut ctx.vault, &mut ctx.signer, order.lamports) {
        Ok(()) => Ok(()),
        Err(failure) => Err(OperationError::Transfer(failure)),
    }
}

} // verus!
