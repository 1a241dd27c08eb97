use vstd::prelude::*;

use crate::codec::{read_u64_be, spec_u64_from_be_bytes};
use crate::error::LedgerError;

verus! {

/// One decoded ledger-engine request: the opcode byte selects the
/// operation, the remaining bytes are its big-endian operands.
#[derive(Clone, Copy, Debug, PartialEq, Eq, Structural)]
pub enum LedgerRequest {
    /// Provision a new account record; the bump is the ownership-proof
    /// token of the derived address.
    Provision { bump: u8 },
    /// Move spendable balance to another account.
    Transfer { amount: u64 },
    /// Credit spendable balance.
    Credit { amount: u64 },
    /// Set spendable balance aside as frozen value.
    Freeze { amount: u64 },
    /// Extend credit to a counterparty.
    Borrow { amount: u64 },
}

/// One decoded debt-log request.
#[derive(Clone, Copy, Debug, PartialEq, Eq, Structural)]
pub enum LogRequest {
    /// Provision the pair's log record.
    Provision { bump: u8 },
    /// Record one borrow event of the given magnitude.
    Record { amount: u64, bump: u8 },
    /// Provision a counterparty registry record.
    ProvisionRegistry,
}

/// Decodes a caller-issued ledger request.
///
/// Opcode zero carries a bump byte; opcodes one to four carry one
/// big-endian 64-bit amount. Fails with `MalformedRecord` exactly when
/// the buffer is empty, the opcode is unknown, or the operand bytes
/// are missing.
pub fn parse_ledger_request(data: &Vec<u8>) -> (r: Result<LedgerRequest, LedgerError>)
    ensures
        r is Ok <==> (data@.len() >= 2 && data@[0] == 0) || (data@.len() >= 9 && 1 <= data@[0]
            <= 4),
        r is Err ==> r == Err::<LedgerRequest, LedgerError>(LedgerError::MalformedRecord),
        data@.len() >= 2 && data@[0] == 0 ==> r == Ok::<LedgerRequest, LedgerError>(
            LedgerRequest::Provision { bump: data@[1] },
        ),
        data@.len() >= 9 && data@[0] == 1 ==> r == Ok::<LedgerRequest, LedgerError>(
            LedgerRequest::Transfer { amount: spec_u64_from_be_bytes(data@.subrange(1, 9)) },
        ),
        data@.len() >= 9 && data@[0] == 2 ==> r == Ok::<LedgerRequest, LedgerError>(
            LedgerRequest::Credit { amount: spec_u64_from_be_bytes(data@.subrange(1, 9)) },
        ),
        data@.len() >= 9 && data@[0] == 3 ==> r == Ok::<LedgerRequest, LedgerError>(
            LedgerRequest::Freeze { amount: spec_u64_from_be_bytes(data@.subrange(1, 9)) },
        ),
        data@.len() >= 9 && data@[0] == 4 ==> r == Ok::<LedgerRequest, LedgerError>(
            LedgerRequest::Borrow { amount: spec_u64_from_be_bytes(data@.subrange(1, 9)) },
        ),
{
    if data.len() == 0 {
        return Err(LedgerError::MalformedRecord);
    }
    let opcode = data[0];
    if opcode == 0 {
        if data.len() < 2 {
            return Err(LedgerError::MalformedRecord);
        }
        Ok(LedgerRequest::Provision { bump: data[1] })
    } else if opcode <= 4 {
        if data.len() < 9 {
            return Err(LedgerError::MalformedRecord);
        }
        let amount = read_u64_be(data, 1);
        if opcode == 1 {
            Ok(LedgerRequest::Transfer { amount })
        } else if opcode == 2 {
            Ok(LedgerRequest::Credit { amount })
        } else if opcode == 3 {
            Ok(LedgerRequest::Freeze { amount })
        } else {
            Ok(LedgerRequest::Borrow { amount })
        }
    } else {
        Err(LedgerError::MalformedRecord)
    }
}

/// Decodes a caller-issued debt-log request.
///
/// Opcode zero carries a bump byte; opcode one carries one big-endian
/// 64-bit amount and a bump byte; opcode two stands alone. Fails with
/// `MalformedRecord` exactly when the buffer is empty, the opcode is
/// unknown, or the operand bytes are missing.
pub fn parse_log_request(data: &Vec<u8>) -> (r: Result<LogRequest, LedgerError>)
    ensures
        r is Ok <==> (data@.len() >= 2 && data@[0] == 0) || (data@.len() >= 10 && data@[0] == 1)
            || (data@.len() >= 1 && data@[0] == 2),
        r is Err ==> r == Err::<LogRequest, LedgerError>(LedgerError::MalformedRecord),
        data@.len() >= 2 && data@[0] == 0 ==> r == Ok::<LogRequest, LedgerError>(
            LogRequest::Provision { bump: data@[1] },
        ),
        data@.len() >= 10 && data@[0] == 1 ==> r == Ok::<LogRequest, LedgerError>(
            LogRequest::Record {
                amount: spec_u64_from_be_bytes(data@.subrange(1, 9)),
                bump: data@[9],
            },
        ),
        data@.len() >= 1 && data@[0] == 2 ==> r == Ok::<LogRequest, LedgerError>(
            LogRequest::ProvisionRegistry,
        ),
{
    if data.len() == 0 {
        return Err(LedgerError::MalformedRecord);
    }
    let opcode = data[0];
    if opcode == 0 {
        if data.len() < 2 {
            return Err(LedgerError::MalformedRecord);
        }
        Ok(LogRequest::Provision { bump: data[1] })
    } else if opcode == 1 {
        if data.len() < 10 {
            return Err(LedgerError::MalformedRecord);
        }
        let amount = read_u64_be(data, 1);
        Ok(LogRequest::Record { amount, bump: data[9] })
    } else if opcode == 2 {
        Ok(LogRequest::ProvisionRegistry)
    } else {
        Err(LedgerError::MalformedRecord)
    }
}

} // verus!
