//! A single-owner vault over native balances.
//!
//! Every owner has exactly one vault account, at an address derived from the
//! owner's own address. The vault is either empty or funded: a deposit fills an
//! empty vault, a withdrawal sweeps a funded one back to its owner.
//!
//! `derivation` finds the vault of an owner. `vault` holds the rules: `plan_deposit` and
//! `plan_withdraw` decide whether an operation goes ahead and which transfer it needs, for a
//! caller whose ledger makes the transfer; `deposit` and `withdraw` decide and then make the
//! transfer themselves, on the balances that `ledger` keeps. `laws` states what follows for
//! every vault.

pub mod address;
pub mod derivation;
pub mod error;
pub mod laws;
pub mod ledger;
pub mod vault;

pub use address::Address;
pub use error::{OperationError, TransferError, VaultError};
pub use ledger::{Account, Authority, Transfer};
pub use vault::{deposit, withdraw, VaultAction};
