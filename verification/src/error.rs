use vstd::prelude::*;

verus! {

/// The two ways in which the vault refuses an operation.
#[derive(Clone, Copy, Debug, PartialEq, Eq, Structural)]
pub enum VaultError {
    /// A deposit was attempted while the vault still held funds.
    VaultAlreadyExists,
    /// The deposit does not exceed the reserve threshold, or there is nothing to withdraw.
    InvalidAmount,
}

impl VaultError {
    /// The text shown to a caller for each refusal.
    pub open spec fn message_text(self) -> Seq<char> {
        match self {
            VaultError::VaultAlreadyExists => "Vault already exists"@,
            VaultError::InvalidAmount => "Invalid amount"@,
        }
    }

    pub fn message(&self) -> (text: &'static str)
        ensures
            text@ == self.message_text(),
    {
        match self {
            VaultError::VaultAlreadyExists => "Vault already exists",
            VaultError::InvalidAmount => "Invalid amount",
        }
    }
}

/// Why the ledger did not carry out a transfer that the vault asked for.
#[derive(Clone, Copy, Debug, PartialEq, Eq, Structural)]
pub enum TransferError {
    /// The paying account holds less than the amount.
    InsufficientFunds,
    /// The receiving balance would no longer fit in 64 bits.
    BalanceOverflow,
}

/// Why an operation on the vault moved nothing.
#[derive(Clone, Copy, Debug, PartialEq, Eq, Structural)]
pub enum OperationError {
    /// The vault refused the operation, so that no transfer was asked for.
    Vault(VaultError),
    /// The vault asked for a transfer and the ledger refused it; its reason is passed on as it is.
    Transfer(TransferError),
}

} // verus!
