use crate::address::Address;
use crate::derivation::signer_seeds;
use crate::error::TransferError;
use vstd::prelude::*;

verus! {

/// An account of the ledger, as far as the vault is concerned: where it is and what it holds.
#[derive(Clone, Copy, Debug, PartialEq, Eq)]
pub struct Account {
    pub key: Address,
    /// The balance, in the smallest unit of the currency.
    pub lamports: u64,
}

/// On whose word a transfer debits the paying account.
#[derive(Clone, Copy, Debug, PartialEq, Eq)]
pub enum Authority {
    /// The owner pays and has signed.
    Owner,
    /// The vault pays. It has no key to sign with: the seeds that its address derives from
    /// speak for it.
    Derived { owner: Address, bump: u8 },
}

impl Authority {
    /// The seeds presented with the transfer: none beside a signature, else those of the
    /// vault with its bump.
    pub open spec fn seeds(self) -> Seq<Seq<u8>> {
        match self {
            Authority::Owner => seq![],
            Authority::Derived { owner, bump } => signer_seeds(owner@, bump),
        }
    }

    /// The seeds to hand to the ledger with the transfer.
    pub fn signer_seeds(&self) -> (seeds: Vec<Vec<u8>>)
        ensures
            seeds.deep_view() == self.seeds(),
    {
        let mut seeds: Vec<Vec<u8>> = Vec::new();
        match self {
            Authority::Owner => {
                assert(seeds.deep_view() =~~= self.seeds());
            },
            Authority::Derived { owner, bump } => {
                seeds.push(vstd::slice::slice_to_vec(&crate::address::VAULT_TAG));
                seeds.push(owner.to_vec());
                let mut last: Vec<u8> = Vec::new();
                last.push(*bump);
                seeds.push(last);
                assert(seeds.deep_view() =~~= self.seeds());
            },
        }
        seeds
    }
}

/// A transfer that the vault asks the ledger to make.
#[derive(Clone, Copy, Debug, PartialEq, Eq)]
pub struct Transfer {
    pub from: Address,
    pub to: Address,
    pub lamports: u64,
    pub authority: Authority,
}

/// Whether the ledger carries out a transfer of `lamports` between two accounts.
pub open spec fn transfer_result(from: Account, to: Account, lamports: u64) -> Result<(), TransferError> {
    if from.lamports < lamports {
        Err(TransferError::InsufficientFunds)
    } else if to.lamports + lamports > u64::MAX {
        Err(TransferError::BalanceOverflow)
    } else {
        Ok(())
    }
}

/// The two accounts after the ledger was asked for a transfer of `lamports`: debited and
/// credited by that much if it carried the transfer out, and as they were if it did not.
pub open spec fn after_transfer(from: Account, to: Account, lamports: u64) -> (Account, Account) {
    if transfer_result(from, to, lamports) is Ok {
        (
            Account { key: from.key, lamports: (from.lamports - lamports) as u64 },
            Account { key: to.key, lamports: (to.lamports + lamports) as u64 },
        )
    } else {
        (from, to)
    }
}

/// Moves `lamports` from one account to the other, wholly or not at all.
///
/// The paying account must hold the amount, and the receiving balance must still fit in 64
/// bits; missing funds are reported first.
pub fn transfer(from: &mut Account, to: &mut Account, lamports: u64) -> (result: Result<(), TransferError>)
    ensures
        result == transfer_result(*old(from), *old(to), lamports),
        (*final(from), *final(to)) == after_transfer(*old(from), *old(to), lamports),
        result is Ok ==> final(from).lamports == old(from).lamports - lamports && final(to).lamports == old(
            to,
        ).lamports + lamports,
        result is Err ==> *final(from) == *old(from) && *final(to) == *old(to),
{
    if from.lamports < lamports {
        return Err(TransferError::InsufficientFunds);
    }
    if lamports > u64::MAX - to.lamports {
        return Err(TransferError::BalanceOverflow);
    }
    from.lamports = from.lamports - lamports;
    to.lamports = to.lamports + lamports;
    Ok(())
}

} // verus!
