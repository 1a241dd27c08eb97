use vstd::prelude::*;

use crate::addr::{bytes_gt, lemma_bytes_gt_total};
use crate::debtlog::{entry_net, event_net, magnitude_of, reconcile_entry, spec_merge,
    DebtLogEntry, ADDR_WIDTH};
use crate::error::LedgerError;

verus! {

/// One ledger account record: four independent unsigned counters.
///
/// `balance` is spendable value; `frozen` is value set aside; `borrowed`
/// is what this account has borrowed from counterparties; `debited` is
/// what others have borrowed against this account's credit.
#[derive(Clone, Copy, Debug, PartialEq, Eq, Structural)]
pub struct LedgerAccount {
    pub balance: u64,
    pub frozen: u64,
    pub borrowed: u64,
    pub debited: u64,
}

/// The lender-side credit still available for new borrows: spendable
/// balance minus what is already extended to others. May be negative.
pub open spec fn lender_avail(a: LedgerAccount) -> int {
    a.balance - a.debited
}

/// The borrower-side projected availability: balance plus its own
/// borrowings minus what it has extended. May be negative.
pub open spec fn borrower_avail(a: LedgerAccount) -> int {
    a.balance + a.borrowed - a.debited
}

/// The borrow operation commits exactly when the amount is strictly
/// below both parties' availability: a margin must remain on each side.
pub open spec fn borrow_allowed(lender: LedgerAccount, borrower: LedgerAccount, amount: u64) -> bool {
    amount < lender_avail(lender) && amount < borrower_avail(borrower)
}

/// Validates a new account record for the deterministically derived
/// address of the owner pair `(owner_a, owner_b)`.
///
/// The pair is canonical only when `owner_a`'s raw address bytes are
/// strictly greater than `owner_b`'s; the caller reports through
/// `already_exists` whether the backing storage already holds a record
/// at the derived address. On success the record starts with all four
/// counters at zero; sizing and funding the storage is the provisioning
/// collaborator's part.
pub fn provision(owner_a: &Vec<u8>, owner_b: &Vec<u8>, already_exists: bool) -> (r: Result<
    LedgerAccount,
    LedgerError,
>)
    ensures
        r is Ok <==> bytes_gt(owner_a@, owner_b@) && !already_exists,
        r is Ok ==> r->Ok_0 == (LedgerAccount { balance: 0, frozen: 0, borrowed: 0, debited: 0 }),
        !bytes_gt(owner_a@, owner_b@) ==> r == Err::<LedgerAccount, LedgerError>(
            LedgerError::OrderingViolation,
        ),
        bytes_gt(owner_a@, owner_b@) && already_exists ==> r == Err::<LedgerAccount, LedgerError>(
            LedgerError::AlreadyProvisioned,
        ),
{
    if !crate::addr::addr_gt(owner_a, owner_b) {
        return Err(LedgerError::OrderingViolation);
    }
    if already_exists {
        return Err(LedgerError::AlreadyProvisioned);
    }
    Ok(LedgerAccount { balance: 0, frozen: 0, borrowed: 0, debited: 0 })
}

/// Credits `amount` to the account's spendable balance.
///
/// Fails with `ArithmeticOverflow`, leaving the account unchanged,
/// exactly when the addition would wrap; there is no upper-bound policy
/// beyond the machine word.
pub fn credit(account: &mut LedgerAccount, amount: u64) -> (r: Result<(), LedgerError>)
    ensures
        r is Ok <==> old(account).balance + amount <= u64::MAX,
        r is Ok ==> *final(account) == (LedgerAccount {
            balance: (old(account).balance + amount) as u64,
            ..*old(account)
        }),
        r is Err ==> *final(account) == *old(account) && r == Err::<(), LedgerError>(
            LedgerError::ArithmeticOverflow,
        ),
{
    if amount > u64::MAX - account.balance {
        return Err(LedgerError::ArithmeticOverflow);
    }
    account.balance = account.balance + amount;
    Ok(())
}

/// Moves `amount` of spendable balance from one account to another,
/// all or nothing.
///
/// Fails with `InsufficientBalance`, leaving both accounts unchanged,
/// exactly when `amount` exceeds the source's balance. In every case the
/// two balances sum to what they summed to before the call.
pub fn transfer(from: &mut LedgerAccount, to: &mut LedgerAccount, amount: u64) -> (r: Result<
    (),
    LedgerError,
>)
    requires
        old(to).balance + amount <= u64::MAX,
    ensures
        r is Ok <==> amount <= old(from).balance,
        r is Ok ==> *final(from) == (LedgerAccount {
            balance: (old(from).balance - amount) as u64,
            ..*old(from)
        }) && *final(to) == (LedgerAccount {
            balance: (old(to).balance + amount) as u64,
            ..*old(to)
        }),
        r is Err ==> *final(from) == *old(from) && *final(to) == *old(to) && r == Err::<
            (),
            LedgerError,
        >(LedgerError::InsufficientBalance),
        final(from).balance + final(to).balance == old(from).balance + old(to).balance,
{
    if from.balance < amount {
        return Err(LedgerError::InsufficientBalance);
    }
    from.balance = from.balance - amount;
    to.balance = to.balance + amount;
    Ok(())
}

/// Sets `amount` of spendable balance aside as frozen value.
///
/// Fails with `InsufficientBalance`, leaving the account unchanged,
/// unless the balance strictly exceeds `amount`: a residual spendable
/// balance must remain. The sum of balance and frozen value is kept.
pub fn freeze(account: &mut LedgerAccount, amount: u64) -> (r: Result<(), LedgerError>)
    requires
        old(account).frozen + amount <= u64::MAX,
    ensures
        r is Ok <==> amount < old(account).balance,
        r is Ok ==> *final(account) == (LedgerAccount {
            balance: (old(account).balance - amount) as u64,
            frozen: (old(account).frozen + amount) as u64,
            ..*old(account)
        }),
        r is Err ==> *final(account) == *old(account) && r == Err::<(), LedgerError>(
            LedgerError::InsufficientBalance,
        ),
        final(account).balance + final(account).frozen == old(account).balance + old(
            account,
        ).frozen,
{
    if account.balance <= amount {
        return Err(LedgerError::InsufficientBalance);
    }
    account.balance = account.balance - amount;
    account.frozen = account.frozen + amount;
    Ok(())
}

/// Extends `amount` of the lender's credit to the borrower.
///
/// Two independent credit checks guard the commit: the amount must stay
/// strictly below the lender's available credit and strictly below the
/// borrower's projected availability ([`borrow_allowed`]). On success the
/// lender's balance falls and its borrowed counter rises by `amount`,
/// and the borrower's debited counter rises by `amount`; on failure both
/// accounts are untouched and the error is `InsufficientAvailableCredit`.
pub fn borrow(lender: &mut LedgerAccount, borrower: &mut LedgerAccount, amount: u64) -> (r: Result<
    (),
    LedgerError,
>)
    requires
        borrow_allowed(*old(lender), *old(borrower), amount) ==> old(lender).borrowed + amount
            <= u64::MAX && old(borrower).debited + amount <= u64::MAX,
    ensures
        r is Ok <==> borrow_allowed(*old(lender), *old(borrower), amount),
        r is Ok ==> *final(lender) == (LedgerAccount {
            balance: (old(lender).balance - amount) as u64,
            borrowed: (old(lender).borrowed + amount) as u64,
            ..*old(lender)
        }) && *final(borrower) == (LedgerAccount {
            debited: (old(borrower).debited + amount) as u64,
            ..*old(borrower)
        }),
        r is Err ==> *final(lender) == *old(lender) && *final(borrower) == *old(borrower) && r
            == Err::<(), LedgerError>(LedgerError::InsufficientAvailableCredit),
{
    let lender_free: i128 = lender.balance as i128 - lender.debited as i128;
    if lender_free <= 0 {
        return Err(LedgerError::InsufficientAvailableCredit);
    }
    let borrower_free: i128 = borrower.balance as i128 + borrower.borrowed as i128
        - borrower.debited as i128;
    if borrower_free <= 0 {
        return Err(LedgerError::InsufficientAvailableCredit);
    }
    if !((amount as i128) < lender_free && borrower_free > amount as i128) {
        return Err(LedgerError::InsufficientAvailableCredit);
    }
    lender.balance = lender.balance - amount;
    lender.borrowed = lender.borrowed + amount;
    borrower.debited = borrower.debited + amount;
    Ok(())
}

/// Decides whether a borrow of `amount` passes both credit checks.
fn borrow_allowed_check(lender: &LedgerAccount, borrower: &LedgerAccount, amount: u64) -> (r: bool)
    ensures
        r == borrow_allowed(*lender, *borrower, amount),
{
    let lender_free: i128 = lender.balance as i128 - lender.debited as i128;
    let borrower_free: i128 = borrower.balance as i128 + borrower.borrowed as i128
        - borrower.debited as i128;
    (amount as i128) < lender_free && (amount as i128) < borrower_free
}

/// Applies a borrow and reconciles the pair's debt-log entry, as one
/// atomic operation: the log is brought up to date logically before
/// the balances commit, and if either part refuses, no account and no
/// log field changes.
///
/// The event enters the log in canonical direction: `forward` exactly
/// when the lender's raw address is the greater of the pair, and the
/// greater address in the entry's first slot.
pub fn borrow_logged(
    lender: &mut LedgerAccount,
    borrower: &mut LedgerAccount,
    lender_addr: &Vec<u8>,
    borrower_addr: &Vec<u8>,
    amount: u64,
    entry: &mut DebtLogEntry,
) -> (r: Result<(), LedgerError>)
    requires
        old(entry).wf(),
        lender_addr@.len() == ADDR_WIDTH,
        borrower_addr@.len() == ADDR_WIDTH,
        lender_addr@ != borrower_addr@,
        borrow_allowed(*old(lender), *old(borrower), amount) ==> old(lender).borrowed + amount
            <= u64::MAX && old(borrower).debited + amount <= u64::MAX,
    ensures
        ({
            let forward = bytes_gt(lender_addr@, borrower_addr@);
            let net_after = entry_net(old(entry).direction, old(entry).amount) + event_net(
                forward,
                amount,
            );
            &&& r is Ok <==> borrow_allowed(*old(lender), *old(borrower), amount)
                && magnitude_of(net_after) <= u64::MAX
            &&& r is Ok ==> *final(lender) == (LedgerAccount {
                balance: (old(lender).balance - amount) as u64,
                borrowed: (old(lender).borrowed + amount) as u64,
                ..*old(lender)
            }) && *final(borrower) == (LedgerAccount {
                debited: (old(borrower).debited + amount) as u64,
                ..*old(borrower)
            }) && final(entry).wf() && (final(entry).direction, final(entry).amount)
                == spec_merge(old(entry).direction, old(entry).amount, forward, amount)
                && entry_net(final(entry).direction, final(entry).amount) == net_after
                && final(entry).creditor_addr@ == (if forward {
                lender_addr@
            } else {
                borrower_addr@
            }) && final(entry).debtor_addr@ == (if forward {
                borrower_addr@
            } else {
                lender_addr@
            })
            &&& r is Err ==> *final(lender) == *old(lender) && *final(borrower) == *old(borrower)
                && *final(entry) == *old(entry)
            &&& !borrow_allowed(*old(lender), *old(borrower), amount) ==> r == Err::<
                (),
                LedgerError,
            >(LedgerError::InsufficientAvailableCredit)
            &&& borrow_allowed(*old(lender), *old(borrower), amount) && magnitude_of(net_after)
                > u64::MAX ==> r == Err::<(), LedgerError>(LedgerError::ArithmeticOverflow)
        }),
{
    if !borrow_allowed_check(lender, borrower, amount) {
        return Err(LedgerError::InsufficientAvailableCredit);
    }
    let forward = crate::addr::addr_gt(lender_addr, borrower_addr);
    proof {
        if !forward {
            lemma_bytes_gt_total(lender_addr@, borrower_addr@);
        }
    }
    let reconciled = if forward {
        reconcile_entry(entry, lender_addr, borrower_addr, true, amount)
    } else {
        reconcile_entry(entry, borrower_addr, lender_addr, false, amount)
    };
    match reconciled {
        Ok(()) => {},
        Err(e) => {
            return Err(e);
        },
    }
    match borrow(lender, borrower, amount) {
        Ok(()) => Ok(()),
        Err(e) => Err(e),
    }
}

/// A borrow rejection margin: the operation is refused whenever the
/// amount reaches the lender's available credit, and whenever it falls
/// at or below the borrower's debit overhang. Rejection means no state
/// change, by the contract of [`borrow`].
pub proof fn lemma_borrow_rejected(lender: LedgerAccount, borrower: LedgerAccount, amount: u64)
    requires
        amount >= lender_avail(lender) || amount <= borrower.debited - borrower.balance
            - borrower.borrowed,
    ensures
        !borrow_allowed(lender, borrower, amount),
{
}

} // verus!
