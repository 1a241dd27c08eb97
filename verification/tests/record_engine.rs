use token_ledger::codec::{decode_account, encode_account};
use token_ledger::debtlog::DebtLogEntry;
use token_ledger::engine::{borrow_records, credit_record, freeze_record, transfer_records};
use token_ledger::error::LedgerError;
use token_ledger::ledger::{borrow_logged, LedgerAccount};

fn record(balance: u64, frozen: u64, borrowed: u64, debited: u64) -> Vec<u8> {
    let account = LedgerAccount { balance, frozen, borrowed, debited };
    let mut buf = vec![0u8; 32];
    encode_account(&account, &mut buf).unwrap();
    buf
}

fn addr(last: u8) -> Vec<u8> {
    let mut a = vec![0u8; 32];
    a[31] = last;
    a
}

#[test]
fn credit_record_updates_the_buffer_in_place() {
    let mut buf = record(5, 1, 2, 3);
    assert!(credit_record(&mut buf, 37).is_ok());
    let account = decode_account(&buf).unwrap();
    assert_eq!(account, LedgerAccount { balance: 42, frozen: 1, borrowed: 2, debited: 3 });
}

#[test]
fn transfer_records_moves_value_between_buffers() {
    let mut pay = record(100, 0, 0, 0);
    let mut dest = record(10, 0, 0, 0);
    assert!(transfer_records(&mut pay, &mut dest, 30).is_ok());
    assert_eq!(decode_account(&pay).unwrap().balance, 70);
    assert_eq!(decode_account(&dest).unwrap().balance, 40);
}

#[test]
fn transfer_records_rejects_without_touching_either_buffer() {
    let mut pay = record(10, 0, 0, 0);
    let mut dest = record(1, 0, 0, 0);
    let pay_before = pay.clone();
    let dest_before = dest.clone();
    assert_eq!(
        transfer_records(&mut pay, &mut dest, 11),
        Err(LedgerError::InsufficientBalance)
    );
    assert_eq!(pay, pay_before);
    assert_eq!(dest, dest_before);
    let mut short = vec![0u8; 8];
    assert_eq!(
        transfer_records(&mut short, &mut dest, 1),
        Err(LedgerError::MalformedRecord)
    );
    assert_eq!(dest, dest_before);
}

#[test]
fn freeze_record_moves_value_aside_in_place() {
    let mut buf = record(100, 5, 0, 0);
    assert!(freeze_record(&mut buf, 40).is_ok());
    let account = decode_account(&buf).unwrap();
    assert_eq!(account.balance, 60);
    assert_eq!(account.frozen, 45);
    assert_eq!(
        freeze_record(&mut buf, 60),
        Err(LedgerError::InsufficientBalance)
    );
}

#[test]
fn borrow_records_applies_both_sides_or_neither() {
    let mut pay = record(100, 0, 0, 0);
    let mut dest = record(10, 0, 200, 0);
    assert!(borrow_records(&mut pay, &mut dest, 50).is_ok());
    let lender = decode_account(&pay).unwrap();
    let borrower = decode_account(&dest).unwrap();
    assert_eq!(lender.balance, 50);
    assert_eq!(lender.borrowed, 50);
    assert_eq!(borrower.debited, 50);
    let pay_before = pay.clone();
    let dest_before = dest.clone();
    assert_eq!(
        borrow_records(&mut pay, &mut dest, 1000),
        Err(LedgerError::InsufficientAvailableCredit)
    );
    assert_eq!(pay, pay_before);
    assert_eq!(dest, dest_before);
}

#[test]
fn borrow_logged_commits_accounts_and_log_together() {
    let mut lender = LedgerAccount { balance: 100, frozen: 0, borrowed: 0, debited: 0 };
    let mut borrower = LedgerAccount { balance: 10, frozen: 0, borrowed: 200, debited: 0 };
    let mut entry = DebtLogEntry {
        direction: 0,
        amount: 0,
        creditor_addr: vec![0u8; 32],
        debtor_addr: vec![0u8; 32],
    };
    // The borrower holds the greater address, so the event direction
    // is reversed with respect to the canonical pair.
    assert!(borrow_logged(&mut lender, &mut borrower, &addr(3), &addr(9), 50, &mut entry).is_ok());
    assert_eq!(lender.balance, 50);
    assert_eq!(lender.borrowed, 50);
    assert_eq!(borrower.debited, 50);
    assert_eq!(entry.direction, 1);
    assert_eq!(entry.amount, 50);
    assert_eq!(entry.creditor_addr, addr(9));
    assert_eq!(entry.debtor_addr, addr(3));
}

#[test]
fn borrow_logged_refuses_without_any_change() {
    let mut lender = LedgerAccount { balance: 100, frozen: 0, borrowed: 0, debited: 0 };
    let mut borrower = LedgerAccount { balance: 10, frozen: 0, borrowed: 0, debited: 0 };
    let mut entry = DebtLogEntry {
        direction: 0,
        amount: 7,
        creditor_addr: addr(9),
        debtor_addr: addr(3),
    };
    let entry_before = entry.clone();
    assert_eq!(
        borrow_logged(&mut lender, &mut borrower, &addr(9), &addr(3), 50, &mut entry),
        Err(LedgerError::InsufficientAvailableCredit)
    );
    assert_eq!(lender.balance, 100);
    assert_eq!(borrower.debited, 0);
    assert_eq!(entry, entry_before);
}
