use anchor_vault::error::{OperationError, TransferError};
use anchor_vault::ledger::transfer;
use anchor_vault::vault::{require_above_reserve, require_empty};
use anchor_vault::{deposit, withdraw, Account, Address, Authority, Transfer, VaultAction, VaultError};

const THRESHOLD: u64 = 890_880;

fn owner_key() -> Address {
    Address::new([7u8; 32])
}

fn vault_key() -> Address {
    Address::new([9u8; 32])
}

fn accounts(signer_lamports: u64, vault_lamports: u64) -> VaultAction {
    VaultAction {
        signer: Account { key: owner_key(), lamports: signer_lamports },
        vault: Account { key: vault_key(), lamports: vault_lamports },
        bump: 254,
    }
}

#[test]
fn deposit_and_withdraw_cycle() {
    let mut ctx = accounts(5_000_000, 0);

    assert_eq!(deposit(&mut ctx, 1_000_000, THRESHOLD), Ok(()));
    assert_eq!(ctx.vault.lamports, 1_000_000);
    assert_eq!(ctx.signer.lamports, 4_000_000);

    assert_eq!(
        deposit(&mut ctx, 500_000, THRESHOLD),
        Err(OperationError::Vault(VaultError::VaultAlreadyExists))
    );
    assert_eq!(ctx.vault.lamports, 1_000_000);
    assert_eq!(ctx.signer.lamports, 4_000_000);

    let before = ctx.signer.lamports;
    assert_eq!(withdraw(&mut ctx), Ok(()));
    assert_eq!(ctx.vault.lamports, 0);
    assert_eq!(ctx.signer.lamports, before + 1_000_000);

    assert_eq!(withdraw(&mut ctx), Err(OperationError::Vault(VaultError::InvalidAmount)));
    assert_eq!(ctx.vault.lamports, 0);
    assert_eq!(ctx.signer.lamports, 5_000_000);
}

#[test]
fn deposit_then_withdraw_restores_the_accounts() {
    let start = accounts(3_210_987, 0);
    let mut ctx = start;
    assert_eq!(deposit(&mut ctx, 2_000_000, THRESHOLD), Ok(()));
    assert_ne!(ctx, start);
    assert_eq!(withdraw(&mut ctx), Ok(()));
    assert_eq!(ctx, start);
}

#[test]
fn vault_can_be_used_again_after_a_withdrawal() {
    let mut ctx = accounts(3_000_000, 0);
    assert_eq!(deposit(&mut ctx, 1_000_000, THRESHOLD), Ok(()));
    assert_eq!(withdraw(&mut ctx), Ok(()));
    assert_eq!(deposit(&mut ctx, 2_500_000, THRESHOLD), Ok(()));
    assert_eq!(ctx.vault.lamports, 2_500_000);
    assert_eq!(ctx.signer.lamports, 500_000);
}

#[test]
fn deposit_at_the_threshold_is_refused() {
    let mut ctx = accounts(5_000_000, 0);
    assert_eq!(
        deposit(&mut ctx, THRESHOLD, THRESHOLD),
        Err(OperationError::Vault(VaultError::InvalidAmount))
    );
    assert_eq!(ctx, accounts(5_000_000, 0));
}

#[test]
fn deposit_below_the_threshold_is_refused() {
    let mut ctx = accounts(5_000_000, 0);
    assert_eq!(
        deposit(&mut ctx, 500_000, THRESHOLD),
        Err(OperationError::Vault(VaultError::InvalidAmount))
    );
    assert_eq!(ctx, accounts(5_000_000, 0));
    assert_eq!(deposit(&mut ctx, 0, 0), Err(OperationError::Vault(VaultError::InvalidAmount)));
    assert_eq!(ctx, accounts(5_000_000, 0));
}

#[test]
fn deposit_just_above_the_threshold_is_taken() {
    let mut ctx = accounts(5_000_000, 0);
    assert_eq!(deposit(&mut ctx, THRESHOLD + 1, THRESHOLD), Ok(()));
    assert_eq!(ctx, accounts(5_000_000 - THRESHOLD - 1, THRESHOLD + 1));
}

#[test]
fn deposit_into_a_funded_vault_is_refused() {
    let mut ctx = accounts(5_000_000, 1);
    assert_eq!(
        deposit(&mut ctx, 1_000_000, THRESHOLD),
        Err(OperationError::Vault(VaultError::VaultAlreadyExists))
    );
    assert_eq!(ctx, accounts(5_000_000, 1));
}

#[test]
fn funded_vault_is_reported_before_a_small_amount() {
    let mut ctx = accounts(5_000_000, 1_000_000);
    assert_eq!(
        deposit(&mut ctx, 1, THRESHOLD),
        Err(OperationError::Vault(VaultError::VaultAlreadyExists))
    );
    assert_eq!(ctx, accounts(5_000_000, 1_000_000));
}

#[test]
fn deposit_beyond_the_owners_balance_fails_in_the_ledger() {
    let mut ctx = accounts(999_999, 0);
    assert_eq!(
        deposit(&mut ctx, 1_000_000, THRESHOLD),
        Err(OperationError::Transfer(TransferError::InsufficientFunds))
    );
    assert_eq!(ctx, accounts(999_999, 0));
}

#[test]
fn deposit_of_the_whole_balance_empties_the_owner() {
    let mut ctx = accounts(u64::MAX, 0);
    assert_eq!(deposit(&mut ctx, u64::MAX, THRESHOLD), Ok(()));
    assert_eq!(ctx, accounts(0, u64::MAX));
}

#[test]
fn withdraw_from_an_empty_vault_is_refused() {
    let mut ctx = accounts(42, 0);
    assert_eq!(withdraw(&mut ctx), Err(OperationError::Vault(VaultError::InvalidAmount)));
    assert_eq!(ctx, accounts(42, 0));
}

#[test]
fn withdraw_sweeps_whatever_the_vault_holds() {
    let mut ctx = accounts(10, 1);
    assert_eq!(withdraw(&mut ctx), Ok(()));
    assert_eq!(ctx, accounts(11, 0));
}

#[test]
fn withdraw_that_would_overflow_the_owner_fails_in_the_ledger() {
    let mut ctx = accounts(u64::MAX, 1);
    assert_eq!(withdraw(&mut ctx), Err(OperationError::Transfer(TransferError::BalanceOverflow)));
    assert_eq!(ctx, accounts(u64::MAX, 1));

    let mut ctx = accounts(u64::MAX - 1, 1);
    assert_eq!(withdraw(&mut ctx), Ok(()));
    assert_eq!(ctx, accounts(u64::MAX, 0));
}

#[test]
fn total_is_conserved_by_every_outcome() {
    let cases = [
        accounts(5_000_000, 0),
        accounts(5_000_000, 2_000_000),
        accounts(100, 0),
        accounts(0, 0),
    ];
    for start in cases {
        let total = start.signer.lamports + start.vault.lamports;
        let mut ctx = start;
        let _ = deposit(&mut ctx, 1_000_000, THRESHOLD);
        assert_eq!(ctx.signer.lamports + ctx.vault.lamports, total);
        let _ = withdraw(&mut ctx);
        assert_eq!(ctx.signer.lamports + ctx.vault.lamports, total);
    }
}

#[test]
fn operations_leave_keys_and_bump_alone() {
    let mut ctx = accounts(5_000_000, 0);
    assert_eq!(deposit(&mut ctx, 1_000_000, THRESHOLD), Ok(()));
    assert_eq!(ctx.signer.key, owner_key());
    assert_eq!(ctx.vault.key, vault_key());
    assert_eq!(ctx.bump, 254);
    assert_eq!(withdraw(&mut ctx), Ok(()));
    assert_eq!(ctx.signer.key, owner_key());
    assert_eq!(ctx.vault.key, vault_key());
    assert_eq!(ctx.bump, 254);
}

#[test]
fn plan_deposit_asks_the_owner_to_pay_the_vault() {
    let ctx = accounts(5_000_000, 0);
    assert_eq!(
        ctx.plan_deposit(1_000_000, THRESHOLD),
        Ok(Transfer {
            from: owner_key(),
            to: vault_key(),
            lamports: 1_000_000,
            authority: Authority::Owner,
        })
    );
    assert_eq!(ctx, accounts(5_000_000, 0));
}

#[test]
fn plan_deposit_does_not_look_at_the_owners_balance() {
    let ctx = accounts(0, 0);
    assert_eq!(
        ctx.plan_deposit(1_000_000, THRESHOLD),
        Ok(Transfer {
            from: owner_key(),
            to: vault_key(),
            lamports: 1_000_000,
            authority: Authority::Owner,
        })
    );
}

#[test]
fn plan_deposit_refusals() {
    assert_eq!(
        accounts(5_000_000, 3).plan_deposit(1_000_000, THRESHOLD),
        Err(VaultError::VaultAlreadyExists)
    );
    assert_eq!(
        accounts(5_000_000, 3).plan_deposit(1, THRESHOLD),
        Err(VaultError::VaultAlreadyExists)
    );
    assert_eq!(
        accounts(5_000_000, 0).plan_deposit(THRESHOLD, THRESHOLD),
        Err(VaultError::InvalidAmount)
    );
    assert_eq!(accounts(5_000_000, 0).plan_deposit(0, 0), Err(VaultError::InvalidAmount));
    assert!(accounts(5_000_000, 0).plan_deposit(1, 0).is_ok());
}

#[test]
fn plan_withdraw_sweeps_the_vault_on_the_word_of_its_seeds() {
    let ctx = accounts(5, 1_234_567);
    assert_eq!(
        ctx.plan_withdraw(),
        Ok(Transfer {
            from: vault_key(),
            to: owner_key(),
            lamports: 1_234_567,
            authority: Authority::Derived { owner: owner_key(), bump: 254 },
        })
    );
}

#[test]
fn plan_withdraw_refuses_an_empty_vault() {
    assert_eq!(accounts(5, 0).plan_withdraw(), Err(VaultError::InvalidAmount));
}

#[test]
fn signer_seeds_are_tag_owner_and_bump() {
    let seeds = Authority::Derived { owner: owner_key(), bump: 254 }.signer_seeds();
    assert_eq!(seeds, vec![b"vault".to_vec(), vec![7u8; 32], vec![254u8]]);
    assert_eq!(Authority::Owner.signer_seeds(), Vec::<Vec<u8>>::new());
}

#[test]
fn guards_of_a_deposit() {
    assert_eq!(require_empty(0), Ok(()));
    assert_eq!(require_empty(1), Err(VaultError::VaultAlreadyExists));
    assert_eq!(require_empty(u64::MAX), Err(VaultError::VaultAlreadyExists));
    assert_eq!(require_above_reserve(890_881, 890_880), Ok(()));
    assert_eq!(require_above_reserve(890_880, 890_880), Err(VaultError::InvalidAmount));
    assert_eq!(require_above_reserve(0, 890_880), Err(VaultError::InvalidAmount));
    assert_eq!(require_above_reserve(u64::MAX, u64::MAX), Err(VaultError::InvalidAmount));
    assert_eq!(require_above_reserve(1, 0), Ok(()));
}

#[test]
fn ledger_moves_all_or_nothing() {
    let mut from = Account { key: owner_key(), lamports: 10 };
    let mut to = Account { key: vault_key(), lamports: 5 };

    assert_eq!(transfer(&mut from, &mut to, 11), Err(TransferError::InsufficientFunds));
    assert_eq!((from.lamports, to.lamports), (10, 5));

    assert_eq!(transfer(&mut from, &mut to, 4), Ok(()));
    assert_eq!((from.lamports, to.lamports), (6, 9));

    assert_eq!(transfer(&mut from, &mut to, 0), Ok(()));
    assert_eq!((from.lamports, to.lamports), (6, 9));

    assert_eq!(transfer(&mut from, &mut to, 6), Ok(()));
    assert_eq!((from.lamports, to.lamports), (0, 15));
    assert_eq!(from.key, owner_key());
    assert_eq!(to.key, vault_key());
}

#[test]
fn ledger_refuses_a_balance_beyond_64_bits() {
    let mut from = Account { key: owner_key(), lamports: 10 };
    let mut to = Account { key: vault_key(), lamports: u64::MAX - 3 };
    assert_eq!(transfer(&mut from, &mut to, 4), Err(TransferError::BalanceOverflow));
    assert_eq!((from.lamports, to.lamports), (10, u64::MAX - 3));
    assert_eq!(transfer(&mut from, &mut to, 3), Ok(()));
    assert_eq!((from.lamports, to.lamports), (7, u64::MAX));
}

#[test]
fn ledger_reports_missing_funds_before_overflow() {
    let mut from = Account { key: owner_key(), lamports: 1 };
    let mut to = Account { key: vault_key(), lamports: u64::MAX };
    assert_eq!(transfer(&mut from, &mut to, 2), Err(TransferError::InsufficientFunds));
}

#[test]
fn refusals_have_their_messages() {
    assert_eq!(VaultError::VaultAlreadyExists.message(), "Vault already exists");
    assert_eq!(VaultError::InvalidAmount.message(), "Invalid amount");
}
