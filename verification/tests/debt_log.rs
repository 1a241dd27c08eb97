use token_ledger::codec::decode_entry;
use token_ledger::debtlog::{log_data, reconcile_entry, reconcile_record, DebtLogEntry};
use token_ledger::error::LedgerError;

fn addr(last: u8) -> Vec<u8> {
    let mut a = vec![0u8; 32];
    a[31] = last;
    a
}

fn zero_entry() -> DebtLogEntry {
    DebtLogEntry {
        direction: 0,
        amount: 0,
        creditor_addr: vec![0u8; 32],
        debtor_addr: vec![0u8; 32],
    }
}

#[test]
fn first_event_sets_direction_and_amount() {
    // The greater-address party lends 30: direction stays 0.
    let mut entry = zero_entry();
    assert!(reconcile_entry(&mut entry, &addr(9), &addr(3), true, 30).is_ok());
    assert_eq!(entry.direction, 0);
    assert_eq!(entry.amount, 30);
    assert_eq!(entry.creditor_addr, addr(9));
    assert_eq!(entry.debtor_addr, addr(3));
}

#[test]
fn opposite_event_with_larger_magnitude_flips_direction() {
    // Event one: the greater party lends 30. Event two: the lesser
    // party lends 50 back, so the net position flips to 20 the other way.
    let mut entry = zero_entry();
    assert!(reconcile_entry(&mut entry, &addr(9), &addr(3), true, 30).is_ok());
    assert!(reconcile_entry(&mut entry, &addr(9), &addr(3), false, 50).is_ok());
    assert_eq!(entry.direction, 1);
    assert_eq!(entry.amount, 20);
    assert_eq!(entry.creditor_addr, addr(9));
    assert_eq!(entry.debtor_addr, addr(3));
}

#[test]
fn opposite_event_with_smaller_magnitude_only_cancels() {
    let mut entry = zero_entry();
    assert!(reconcile_entry(&mut entry, &addr(9), &addr(3), true, 50).is_ok());
    assert!(reconcile_entry(&mut entry, &addr(9), &addr(3), false, 30).is_ok());
    assert_eq!(entry.direction, 0);
    assert_eq!(entry.amount, 20);
}

#[test]
fn same_direction_events_accumulate() {
    let mut entry = zero_entry();
    assert!(reconcile_entry(&mut entry, &addr(9), &addr(3), false, 30).is_ok());
    assert!(reconcile_entry(&mut entry, &addr(9), &addr(3), false, 12).is_ok());
    assert_eq!(entry.direction, 1);
    assert_eq!(entry.amount, 42);
}

#[test]
fn exact_cancellation_keeps_direction_at_zero_amount() {
    let mut entry = zero_entry();
    assert!(reconcile_entry(&mut entry, &addr(9), &addr(3), true, 25).is_ok());
    assert!(reconcile_entry(&mut entry, &addr(9), &addr(3), false, 25).is_ok());
    assert_eq!(entry.direction, 0);
    assert_eq!(entry.amount, 0);
}

#[test]
fn accumulation_that_would_wrap_is_rejected() {
    let mut entry = zero_entry();
    assert!(reconcile_entry(&mut entry, &addr(9), &addr(3), true, u64::MAX).is_ok());
    assert_eq!(
        reconcile_entry(&mut entry, &addr(9), &addr(3), true, 1),
        Err(LedgerError::ArithmeticOverflow)
    );
    assert_eq!(entry.amount, u64::MAX);
    // The opposite direction still reconciles.
    assert!(reconcile_entry(&mut entry, &addr(9), &addr(3), false, 1).is_ok());
    assert_eq!(entry.amount, u64::MAX - 1);
}

#[test]
fn record_reconciliation_works_on_the_raw_buffer() {
    let mut buf = vec![0u8; 73];
    assert!(reconcile_record(&mut buf, &addr(9), &addr(3), true, 30).is_ok());
    assert!(reconcile_record(&mut buf, &addr(9), &addr(3), false, 50).is_ok());
    let entry = decode_entry(&buf).unwrap();
    assert_eq!(entry.direction, 1);
    assert_eq!(entry.amount, 20);
    assert_eq!(entry.creditor_addr, addr(9));
    assert_eq!(entry.debtor_addr, addr(3));
}

#[test]
fn record_reconciliation_rejects_missing_and_corrupt_buffers() {
    let mut empty = Vec::new();
    assert_eq!(
        reconcile_record(&mut empty, &addr(9), &addr(3), true, 1),
        Err(LedgerError::NotProvisioned)
    );
    let mut wrong = vec![0u8; 80];
    assert_eq!(
        reconcile_record(&mut wrong, &addr(9), &addr(3), true, 1),
        Err(LedgerError::MalformedRecord)
    );
    assert_eq!(wrong, vec![0u8; 80]);
}

#[test]
fn stored_pair_tracks_the_algebraic_sum_of_events() {
    let events: [(bool, u64); 7] =
        [(true, 30), (false, 50), (false, 5), (true, 100), (true, 1), (false, 76), (false, 1)];
    let mut entry = zero_entry();
    let mut net: i128 = 0;
    for (forward, amount) in events {
        assert!(reconcile_entry(&mut entry, &addr(9), &addr(3), forward, amount).is_ok());
        net += if forward { amount as i128 } else { -(amount as i128) };
        let stored = if entry.direction == 0 { entry.amount as i128 } else { -(entry.amount as i128) };
        assert_eq!(stored, net);
    }
    assert_eq!(entry.direction, 1);
    assert_eq!(entry.amount, 1);
}

#[test]
fn log_data_names_creditor_by_direction() {
    let mut entry = zero_entry();
    assert!(reconcile_entry(&mut entry, &addr(9), &addr(3), true, 30).is_ok());
    let forward_view = log_data(&entry);
    assert_eq!(forward_view.creditor, addr(9));
    assert_eq!(forward_view.debtor, addr(3));
    assert_eq!(forward_view.amount, 30);
    assert!(reconcile_entry(&mut entry, &addr(9), &addr(3), false, 50).is_ok());
    let flipped_view = log_data(&entry);
    assert_eq!(flipped_view.creditor, addr(3));
    assert_eq!(flipped_view.debtor, addr(9));
    assert_eq!(flipped_view.amount, 20);
}
