use crate::address::Address;
use crate::derivation::{derived, signer_seeds, vault_seeds};
use crate::error::{OperationError, VaultError};
use crate::vault::VaultAction;
use vstd::prelude::*;

verus! {

/// Whether the vault respects the reserve: it is empty, or holds more than the threshold.
pub open spec fn keeps_reserve(ctx: VaultAction, reserve_threshold: u64) -> bool {
    ctx.vault.lamports == 0 || ctx.vault.lamports > reserve_threshold
}

/// Two owners never share the seeds of a vault, nor the seeds that speak for one: what
/// is hashed for one owner is never what is hashed for another.
pub proof fn lemma_owners_have_their_own_seeds(first: Address, second: Address, first_bump: u8, second_bump: u8)
    requires
        first != second,
    ensures
        vault_seeds(first@) != vault_seeds(second@),
        signer_seeds(first@, first_bump) != signer_seeds(second@, second_bump),
{
    Address::lemma_equal_by_bytes(first, second);
    assert(vault_seeds(first@)[1] == first@);
    assert(vault_seeds(second@)[1] == second@);
    assert(signer_seeds(first@, first_bump)[1] == first@);
    assert(signer_seeds(second@, second_bump)[1] == second@);
}

/// A deposit that succeeds, followed by a withdrawal: the withdrawal succeeds too, the owner
/// holds again what the owner held before the deposit, and the vault is empty as it was.
pub proof fn lemma_deposit_then_withdraw_restores(ctx: VaultAction, amount: u64, reserve_threshold: u64)
    requires
        ctx.deposit_result(amount, reserve_threshold) is Ok,
    ensures
        ctx.after_deposit(amount, reserve_threshold).withdraw_result() is Ok,
        ctx.after_deposit(amount, reserve_threshold).after_withdraw().signer.lamports == ctx.signer.lamports,
        ctx.after_deposit(amount, reserve_threshold).after_withdraw().vault.lamports == 0,
        ctx.after_deposit(amount, reserve_threshold).after_withdraw() == ctx,
{
}

/// Neither operation creates or destroys anything: what the owner and the vault hold
/// together is the same after it as before, whether it succeeded or not.
pub proof fn lemma_total_is_conserved(ctx: VaultAction, amount: u64, reserve_threshold: u64)
    ensures
        ctx.after_deposit(amount, reserve_threshold).total() == ctx.total(),
        ctx.after_withdraw().total() == ctx.total(),
{
}

/// A vault that respects the reserve still does after a deposit made at the same threshold,
/// and after a withdrawal at any.
pub proof fn lemma_reserve_is_kept(ctx: VaultAction, amount: u64, reserve_threshold: u64)
    requires
        keeps_reserve(ctx, reserve_threshold),
    ensures
        keeps_reserve(ctx.after_deposit(amount, reserve_threshold), reserve_threshold),
        keeps_reserve(ctx.after_withdraw(), reserve_threshold),
{
}

/// A vault is filled once per cycle: after a deposit that succeeded, every further deposit
/// is refused, whatever its amount and whatever the threshold has become.
pub proof fn lemma_funded_vault_takes_no_deposit(
    ctx: VaultAction,
    amount: u64,
    reserve_threshold: u64,
    next_amount: u64,
    next_threshold: u64,
)
    requires
        ctx.deposit_result(amount, reserve_threshold) is Ok,
    ensures
        ctx.after_deposit(amount, reserve_threshold).deposit_result(next_amount, next_threshold) == Err::<
            (),
            OperationError,
        >(OperationError::Vault(VaultError::VaultAlreadyExists)),
{
}

/// A vault is swept once per cycle: after a withdrawal that succeeded the vault is empty, a
/// second withdrawal is refused, and the vault is open to a new deposit.
pub proof fn lemma_swept_vault_is_empty(ctx: VaultAction)
    requires
        ctx.withdraw_result() is Ok,
    ensures
        ctx.after_withdraw().is_empty(),
        ctx.after_withdraw().withdraw_result() == Err::<(), OperationError>(
            OperationError::Vault(VaultError::InvalidAmount),
        ),
        forall|amount: u64, reserve_threshold: u64|
            amount > reserve_threshold ==> #[trigger] ctx.after_withdraw().deposit_plan(
                amount,
                reserve_threshold,
            ) is Ok,
{
}

/// A withdrawal debits the vault on the word of its derivation: the seeds presented are the
/// owner's, closed by the bump that the accounts carry, and where the accounts are bound they
/// are the very seeds that lead from the owner to the account debited.
pub proof fn lemma_withdrawal_presents_the_derivation(ctx: VaultAction)
    ensures
        ctx.withdraw_plan() matches Ok(order) ==> {
            &&& order.from == ctx.vault.key
            &&& order.to == ctx.signer.key
            &&& order.authority.seeds() == signer_seeds(ctx.signer.key@, ctx.bump)
            &&& ctx.bound() ==> derived(ctx.signer.key@) == Some((order.from@, ctx.bump))
        },
{
}

/// The operations move balances and nothing else: the two addresses and the bump stay, and
/// with them the tie between the owner and the vault.
pub proof fn lemma_accounts_stay_bound(ctx: VaultAction, amount: u64, reserve_threshold: u64)
    ensures
        ctx.after_deposit(amount, reserve_threshold).bound() == ctx.bound(),
        ctx.after_withdraw().bound() == ctx.bound(),
{
}

} // verus!
