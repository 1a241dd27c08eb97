use token_ledger::error::LedgerError;
use token_ledger::request::{parse_ledger_request, parse_log_request, LedgerRequest, LogRequest};

fn with_amount(opcode: u8, amount: u64) -> Vec<u8> {
    let mut data = vec![opcode];
    data.extend_from_slice(&amount.to_be_bytes());
    data
}

#[test]
fn ledger_opcodes_decode_to_their_operations() {
    assert_eq!(
        parse_ledger_request(&vec![0, 254]),
        Ok(LedgerRequest::Provision { bump: 254 })
    );
    assert_eq!(
        parse_ledger_request(&with_amount(1, 300)),
        Ok(LedgerRequest::Transfer { amount: 300 })
    );
    assert_eq!(
        parse_ledger_request(&with_amount(2, u64::MAX)),
        Ok(LedgerRequest::Credit { amount: u64::MAX })
    );
    assert_eq!(
        parse_ledger_request(&with_amount(3, 0)),
        Ok(LedgerRequest::Freeze { amount: 0 })
    );
    assert_eq!(
        parse_ledger_request(&with_amount(4, 0x0102030405060708)),
        Ok(LedgerRequest::Borrow { amount: 0x0102030405060708 })
    );
}

#[test]
fn ledger_requests_reject_unknown_or_short_buffers() {
    assert_eq!(parse_ledger_request(&Vec::new()), Err(LedgerError::MalformedRecord));
    assert_eq!(parse_ledger_request(&vec![5, 0, 0, 0, 0, 0, 0, 0, 0]), Err(LedgerError::MalformedRecord));
    assert_eq!(parse_ledger_request(&vec![0]), Err(LedgerError::MalformedRecord));
    assert_eq!(parse_ledger_request(&vec![1, 0, 0, 0]), Err(LedgerError::MalformedRecord));
}

#[test]
fn log_opcodes_decode_to_their_operations() {
    assert_eq!(parse_log_request(&vec![0, 7]), Ok(LogRequest::Provision { bump: 7 }));
    let mut record = with_amount(1, 42);
    record.push(255);
    assert_eq!(
        parse_log_request(&record),
        Ok(LogRequest::Record { amount: 42, bump: 255 })
    );
    assert_eq!(parse_log_request(&vec![2]), Ok(LogRequest::ProvisionRegistry));
}

#[test]
fn log_requests_reject_unknown_or_short_buffers() {
    assert_eq!(parse_log_request(&Vec::new()), Err(LedgerError::MalformedRecord));
    assert_eq!(parse_log_request(&vec![3]), Err(LedgerError::MalformedRecord));
    assert_eq!(parse_log_request(&vec![0]), Err(LedgerError::MalformedRecord));
    // A record request needs the amount and the bump byte.
    assert_eq!(parse_log_request(&with_amount(1, 42)), Err(LedgerError::MalformedRecord));
}
