use token_ledger::error::LedgerError;
use token_ledger::ledger::{borrow, credit, freeze, provision, transfer, LedgerAccount};

fn account(balance: u64, frozen: u64, borrowed: u64, debited: u64) -> LedgerAccount {
    LedgerAccount { balance, frozen, borrowed, debited }
}

fn addr(last: u8) -> Vec<u8> {
    let mut a = vec![0u8; 32];
    a[31] = last;
    a
}

#[test]
fn transfer_moves_value_and_conserves_sum() {
    let mut from = account(100, 1, 2, 3);
    let mut to = account(10, 0, 0, 0);
    assert!(transfer(&mut from, &mut to, 30).is_ok());
    assert_eq!(from.balance, 70);
    assert_eq!(to.balance, 40);
    assert_eq!(from.balance + to.balance, 110);
    assert_eq!(from.frozen, 1);
    assert_eq!(from.borrowed, 2);
    assert_eq!(from.debited, 3);
}

#[test]
fn transfer_of_full_balance_succeeds() {
    let mut from = account(25, 0, 0, 0);
    let mut to = account(0, 0, 0, 0);
    assert!(transfer(&mut from, &mut to, 25).is_ok());
    assert_eq!(from.balance, 0);
    assert_eq!(to.balance, 25);
}

#[test]
fn transfer_with_insufficient_balance_changes_nothing() {
    let mut from = account(10, 0, 0, 0);
    let mut to = account(7, 0, 0, 0);
    assert_eq!(transfer(&mut from, &mut to, 11), Err(LedgerError::InsufficientBalance));
    assert_eq!(from, account(10, 0, 0, 0));
    assert_eq!(to, account(7, 0, 0, 0));
}

#[test]
fn transfer_of_zero_is_a_valid_no_op() {
    let mut from = account(0, 0, 0, 0);
    let mut to = account(0, 0, 0, 0);
    assert!(transfer(&mut from, &mut to, 0).is_ok());
    assert_eq!(from.balance, 0);
    assert_eq!(to.balance, 0);
}

#[test]
fn credit_adds_to_balance() {
    let mut a = account(5, 0, 0, 0);
    assert!(credit(&mut a, 37).is_ok());
    assert_eq!(a, account(42, 0, 0, 0));
}

#[test]
fn credit_that_would_wrap_is_rejected() {
    let mut a = account(u64::MAX - 1, 0, 0, 0);
    assert_eq!(credit(&mut a, 2), Err(LedgerError::ArithmeticOverflow));
    assert_eq!(a.balance, u64::MAX - 1);
    assert!(credit(&mut a, 1).is_ok());
    assert_eq!(a.balance, u64::MAX);
}

#[test]
fn freeze_moves_value_aside() {
    let mut a = account(100, 5, 0, 0);
    assert!(freeze(&mut a, 40).is_ok());
    assert_eq!(a, account(60, 45, 0, 0));
}

#[test]
fn freeze_of_entire_balance_is_rejected() {
    let mut a = account(40, 0, 0, 0);
    assert_eq!(freeze(&mut a, 40), Err(LedgerError::InsufficientBalance));
    assert_eq!(a, account(40, 0, 0, 0));
}

#[test]
fn borrow_rejected_when_borrower_availability_too_small() {
    let mut lender = account(100, 0, 0, 0);
    let mut borrower = account(10, 0, 0, 0);
    assert_eq!(
        borrow(&mut lender, &mut borrower, 50),
        Err(LedgerError::InsufficientAvailableCredit)
    );
    assert_eq!(lender, account(100, 0, 0, 0));
    assert_eq!(borrower, account(10, 0, 0, 0));
}

#[test]
fn borrow_succeeds_against_borrowed_backed_availability() {
    let mut lender = account(100, 0, 0, 0);
    let mut borrower = account(10, 0, 200, 0);
    assert!(borrow(&mut lender, &mut borrower, 50).is_ok());
    assert_eq!(lender.balance, 50);
    assert_eq!(lender.borrowed, 50);
    assert_eq!(borrower.debited, 50);
    assert_eq!(borrower.balance, 10);
    assert_eq!(borrower.borrowed, 200);
}

#[test]
fn borrow_rejected_when_amount_reaches_lender_credit() {
    let mut lender = account(50, 0, 0, 10);
    let mut borrower = account(1000, 0, 0, 0);
    // lender availability is 40; an amount equal to it must be refused.
    assert_eq!(
        borrow(&mut lender, &mut borrower, 40),
        Err(LedgerError::InsufficientAvailableCredit)
    );
    assert_eq!(lender, account(50, 0, 0, 10));
    // one below the margin passes.
    assert!(borrow(&mut lender, &mut borrower, 39).is_ok());
    assert_eq!(lender, account(11, 0, 39, 10));
    assert_eq!(borrower, account(1000, 0, 0, 39));
}

#[test]
fn borrow_rejected_when_lender_overdrawn() {
    let mut lender = account(10, 0, 0, 30);
    let mut borrower = account(1000, 0, 0, 0);
    assert_eq!(
        borrow(&mut lender, &mut borrower, 0),
        Err(LedgerError::InsufficientAvailableCredit)
    );
    assert_eq!(lender, account(10, 0, 0, 30));
}

#[test]
fn provision_yields_zeroed_account_for_canonical_pair() {
    let a = provision(&addr(9), &addr(3), false).unwrap();
    assert_eq!(a, account(0, 0, 0, 0));
}

#[test]
fn provision_rejects_wrong_or_equal_ordering() {
    assert_eq!(
        provision(&addr(3), &addr(9), false),
        Err(LedgerError::OrderingViolation)
    );
    assert_eq!(
        provision(&addr(3), &addr(3), false),
        Err(LedgerError::OrderingViolation)
    );
}

#[test]
fn provision_rejects_existing_record() {
    assert_eq!(
        provision(&addr(9), &addr(3), true),
        Err(LedgerError::AlreadyProvisioned)
    );
}

#[test]
fn error_messages_are_nonempty_text() {
    let kinds = [
        LedgerError::MalformedRecord,
        LedgerError::OrderingViolation,
        LedgerError::AlreadyProvisioned,
        LedgerError::NotProvisioned,
        LedgerError::ArithmeticOverflow,
        LedgerError::InsufficientBalance,
        LedgerError::InsufficientAvailableCredit,
        LedgerError::RegistryFull,
    ];
    for kind in kinds {
        assert!(!kind.message().0.is_empty());
    }
}
