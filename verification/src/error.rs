use vstd::prelude::*;

verus! {

/// The failure taxonomy of the ledger.
///
/// Every fallible operation of the library reports exactly one of these
/// kinds; the contracts of the operations state on which inputs each kind
/// is returned. No operation mutates any record when it fails.
#[derive(Clone, Copy, Debug, PartialEq, Eq, Structural)]
pub enum LedgerError {
    /// A record buffer's length does not match the fixed width expected
    /// for its kind, or its content is corrupt.
    MalformedRecord,
    /// The canonical ordering precondition (first owner address strictly
    /// greater than the second) was violated.
    OrderingViolation,
    /// A record already exists where a new one was to be provisioned.
    AlreadyProvisioned,
    /// A record that the operation needs has not been provisioned yet.
    NotProvisioned,
    /// An unsigned addition would wrap.
    ArithmeticOverflow,
    /// A spendable balance is too small for the requested amount.
    InsufficientBalance,
    /// A credit check of the borrow operation failed.
    InsufficientAvailableCredit,
    /// The counterparty registry has no unused slot left.
    RegistryFull,
}

/// A plain error message wrapper for callers that only report text.
#[derive(Clone, Copy, Debug)]
pub struct Error(pub &'static str);

/// The message text attached to each failure kind.
pub open spec fn error_message(e: LedgerError) -> Seq<char> {
    match e {
        LedgerError::MalformedRecord => "record size does not match the expected width"@,
        LedgerError::OrderingViolation => "owner addresses violate the canonical ordering"@,
        LedgerError::AlreadyProvisioned => "a record is already provisioned at this address"@,
        LedgerError::NotProvisioned => "no record is provisioned at this address"@,
        LedgerError::ArithmeticOverflow => "the addition would wrap"@,
        LedgerError::InsufficientBalance => "balance is not enough"@,
        LedgerError::InsufficientAvailableCredit => "available credit is not enough"@,
        LedgerError::RegistryFull => "the counterparty registry is full"@,
    }
}

impl LedgerError {
    /// The failure kind as a plain message, for display by a caller.
    pub fn message(&self) -> (r: Error)
        ensures
            r.0@ == error_message(*self),
    {
        match self {
            LedgerError::MalformedRecord => Error("record size does not match the expected width"),
            LedgerError::OrderingViolation => Error("owner addresses violate the canonical ordering"),
            LedgerError::AlreadyProvisioned => Error("a record is already provisioned at this address"),
            LedgerError::NotProvisioned => Error("no record is provisioned at this address"),
            LedgerError::ArithmeticOverflow => Error("the addition would wrap"),
            LedgerError::InsufficientBalance => Error("balance is not enough"),
            LedgerError::InsufficientAvailableCredit => Error("available credit is not enough"),
            LedgerError::RegistryFull => Error("the counterparty registry is full"),
        }
    }
}

} // verus!
