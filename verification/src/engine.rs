use vstd::prelude::*;

use crate::codec::{decode_account, encode_account, spec_decode_account, spec_encode_account,
    ACCOUNT_RECORD_WIDTH};
use crate::error::LedgerError;
use crate::ledger::{borrow, borrow_allowed, credit, freeze, transfer, LedgerAccount};

verus! {

/// Credits `amount` to the account record held in `buf`, in place.
///
/// Fails with `MalformedRecord` on a buffer of the wrong width and
/// with `ArithmeticOverflow` when the balance would wrap; on failure
/// the buffer is untouched.
pub fn credit_record(buf: &mut Vec<u8>, amount: u64) -> (r: Result<(), LedgerError>)
    ensures
        r is Ok <==> old(buf)@.len() == ACCOUNT_RECORD_WIDTH && spec_decode_account(
            old(buf)@,
        ).balance + amount <= u64::MAX,
        r is Ok ==> final(buf)@ == spec_encode_account(
            LedgerAccount {
                balance: (spec_decode_account(old(buf)@).balance + amount) as u64,
                ..spec_decode_account(old(buf)@)
            },
        ),
        r is Err ==> final(buf)@ == old(buf)@,
        old(buf)@.len() != ACCOUNT_RECORD_WIDTH ==> r == Err::<(), LedgerError>(
            LedgerError::MalformedRecord,
        ),
        old(buf)@.len() == ACCOUNT_RECORD_WIDTH && spec_decode_account(old(buf)@).balance + amount
            > u64::MAX ==> r == Err::<(), LedgerError>(LedgerError::ArithmeticOverflow),
{
    let mut account = match decode_account(buf) {
        Ok(account) => account,
        Err(e) => {
            return Err(e);
        },
    };
    match credit(&mut account, amount) {
        Ok(()) => {},
        Err(e) => {
            return Err(e);
        },
    }
    match encode_account(&account, buf) {
        Ok(()) => Ok(()),
        Err(e) => Err(e),
    }
}

/// Moves `amount` between the two account records held in `pay` and
/// `dest`, all or nothing.
///
/// Fails with `MalformedRecord` when either buffer has the wrong width
/// and with `InsufficientBalance` when the paying record's balance is
/// too small; on failure neither buffer changes.
pub fn transfer_records(pay: &mut Vec<u8>, dest: &mut Vec<u8>, amount: u64) -> (r: Result<
    (),
    LedgerError,
>)
    requires
        old(pay)@.len() == ACCOUNT_RECORD_WIDTH && old(dest)@.len() == ACCOUNT_RECORD_WIDTH
            ==> spec_decode_account(old(dest)@).balance + amount <= u64::MAX,
    ensures
        r is Ok <==> old(pay)@.len() == ACCOUNT_RECORD_WIDTH && old(dest)@.len()
            == ACCOUNT_RECORD_WIDTH && amount <= spec_decode_account(old(pay)@).balance,
        r is Ok ==> final(pay)@ == spec_encode_account(
            LedgerAccount {
                balance: (spec_decode_account(old(pay)@).balance - amount) as u64,
                ..spec_decode_account(old(pay)@)
            },
        ) && final(dest)@ == spec_encode_account(
            LedgerAccount {
                balance: (spec_decode_account(old(dest)@).balance + amount) as u64,
                ..spec_decode_account(old(dest)@)
            },
        ),
        r is Err ==> final(pay)@ == old(pay)@ && final(dest)@ == old(dest)@,
        !(old(pay)@.len() == ACCOUNT_RECORD_WIDTH && old(dest)@.len() == ACCOUNT_RECORD_WIDTH)
            ==> r == Err::<(), LedgerError>(LedgerError::MalformedRecord),
        old(pay)@.len() == ACCOUNT_RECORD_WIDTH && old(dest)@.len() == ACCOUNT_RECORD_WIDTH
            && amount > spec_decode_account(old(pay)@).balance ==> r == Err::<(), LedgerError>(
            LedgerError::InsufficientBalance,
        ),
{
    let mut pay_account = match decode_account(pay) {
        Ok(account) => account,
        Err(e) => {
            return Err(e);
        },
    };
    let mut dest_account = match decode_account(dest) {
        Ok(account) => account,
        Err(e) => {
            return Err(e);
        },
    };
    match transfer(&mut pay_account, &mut dest_account, amount) {
        Ok(()) => {},
        Err(e) => {
            return Err(e);
        },
    }
    match encode_account(&pay_account, pay) {
        Ok(()) => {},
        Err(e) => {
            return Err(e);
        },
    }
    match encode_account(&dest_account, dest) {
        Ok(()) => Ok(()),
        Err(e) => Err(e),
    }
}

/// Freezes `amount` of the account record held in `buf`, in place.
///
/// Fails with `MalformedRecord` on a buffer of the wrong width and
/// with `InsufficientBalance` unless the balance strictly exceeds
/// `amount`; on failure the buffer is untouched.
pub fn freeze_record(buf: &mut Vec<u8>, amount: u64) -> (r: Result<(), LedgerError>)
    requires
        old(buf)@.len() == ACCOUNT_RECORD_WIDTH ==> spec_decode_account(old(buf)@).frozen + amount
            <= u64::MAX,
    ensures
        r is Ok <==> old(buf)@.len() == ACCOUNT_RECORD_WIDTH && amount < spec_decode_account(
            old(buf)@,
        ).balance,
        r is Ok ==> final(buf)@ == spec_encode_account(
            LedgerAccount {
                balance: (spec_decode_account(old(buf)@).balance - amount) as u64,
                frozen: (spec_decode_account(old(buf)@).frozen + amount) as u64,
                ..spec_decode_account(old(buf)@)
            },
        ),
        r is Err ==> final(buf)@ == old(buf)@,
        old(buf)@.len() != ACCOUNT_RECORD_WIDTH ==> r == Err::<(), LedgerError>(
            LedgerError::MalformedRecord,
        ),
        old(buf)@.len() == ACCOUNT_RECORD_WIDTH && amount >= spec_decode_account(old(buf)@).balance
            ==> r == Err::<(), LedgerError>(LedgerError::InsufficientBalance),
{
    let mut account = match decode_account(buf) {
        Ok(account) => account,
        Err(e) => {
            return Err(e);
        },
    };
    match freeze(&mut account, amount) {
        Ok(()) => {},
        Err(e) => {
            return Err(e);
        },
    }
    match encode_account(&account, buf) {
        Ok(()) => Ok(()),
        Err(e) => Err(e),
    }
}

/// Applies a borrow of `amount` to the lender and borrower account
/// records held in `pay` and `dest`, all or nothing.
///
/// Fails with `MalformedRecord` when either buffer has the wrong width
/// and with `InsufficientAvailableCredit` when either credit check
/// refuses; on failure neither buffer changes. Reconciling the pair's
/// debt-log record is the caller's following step; on a typed entry
/// the two commit together through the ledger's combined operation.
pub fn borrow_records(pay: &mut Vec<u8>, dest: &mut Vec<u8>, amount: u64) -> (r: Result<
    (),
    LedgerError,
>)
    requires
        old(pay)@.len() == ACCOUNT_RECORD_WIDTH && old(dest)@.len() == ACCOUNT_RECORD_WIDTH
            && borrow_allowed(
            spec_decode_account(old(pay)@),
            spec_decode_account(old(dest)@),
            amount,
        ) ==> spec_decode_account(old(pay)@).borrowed + amount <= u64::MAX && spec_decode_account(
            old(dest)@,
        ).debited + amount <= u64::MAX,
    ensures
        r is Ok <==> old(pay)@.len() == ACCOUNT_RECORD_WIDTH && old(dest)@.len()
            == ACCOUNT_RECORD_WIDTH && borrow_allowed(
            spec_decode_account(old(pay)@),
            spec_decode_account(old(dest)@),
            amount,
        ),
        r is Ok ==> final(pay)@ == spec_encode_account(
            LedgerAccount {
                balance: (spec_decode_account(old(pay)@).balance - amount) as u64,
                borrowed: (spec_decode_account(old(pay)@).borrowed + amount) as u64,
                ..spec_decode_account(old(pay)@)
            },
        ) && final(dest)@ == spec_encode_account(
            LedgerAccount {
                debited: (spec_decode_account(old(dest)@).debited + amount) as u64,
                ..spec_decode_account(old(dest)@)
            },
        ),
        r is Err ==> final(pay)@ == old(pay)@ && final(dest)@ == old(dest)@,
        !(old(pay)@.len() == ACCOUNT_RECORD_WIDTH && old(dest)@.len() == ACCOUNT_RECORD_WIDTH)
            ==> r == Err::<(), LedgerError>(LedgerError::MalformedRecord),
        old(pay)@.len() == ACCOUNT_RECORD_WIDTH && old(dest)@.len() == ACCOUNT_RECORD_WIDTH
            && !borrow_allowed(
            spec_decode_account(old(pay)@),
            spec_decode_account(old(dest)@),
            amount,
        ) ==> r == Err::<(), LedgerError>(LedgerError::InsufficientAvailableCredit),
{
    let mut pay_account = match decode_account(pay) {
        Ok(account) => account,
        Err(e) => {
            return Err(e);
        },
    };
    let mut dest_account = match decode_account(dest) {
        Ok(account) => account,
        Err(e) => {
            return Err(e);
        },
    };
    match borrow(&mut pay_account, &mut dest_account, amount) {
        Ok(()) => {},
        Err(e) => {
            return Err(e);
        },
    }
    match encode_account(&pay_account, pay) {
        Ok(()) => {},
        Err(e) => {
            return Err(e);
        },
    }
    match encode_account(&dest_account, dest) {
        Ok(()) => Ok(()),
        Err(e) => Err(e),
    }
}

} // verus!
