use vstd::prelude::*;

use crate::addr::bytes_gt;
use crate::codec::{decode_entry, encode_entry, spec_decode_entry, spec_encode_entry,
    LOG_ENTRY_WIDTH};
use crate::error::LedgerError;

verus! {

/// The number of bytes of a raw counterparty address.
pub const ADDR_WIDTH: usize = 32;

/// The debt-log record of one counterparty pair: a single signed net
/// obligation, stored as a direction flag plus an unsigned magnitude.
///
/// The pair is canonicalized by raw address bytes, descending: the
/// greater address always stands in the `creditor_addr` slot and the
/// lesser in the `debtor_addr` slot. `direction == 0` says the slot-one
/// party is the net creditor; `direction == 1` says the slot-two party
/// is.
#[derive(Clone, Debug, PartialEq, Eq)]
pub struct DebtLogEntry {
    pub direction: u8,
    pub amount: u64,
    pub creditor_addr: Vec<u8>,
    pub debtor_addr: Vec<u8>,
}

/// The mathematical model of a debt-log entry.
pub ghost struct LogEntryModel {
    pub direction: u8,
    pub amount: u64,
    pub creditor_addr: Seq<u8>,
    pub debtor_addr: Seq<u8>,
}

impl View for DebtLogEntry {
    type V = LogEntryModel;

    open spec fn view(&self) -> LogEntryModel {
        LogEntryModel {
            direction: self.direction,
            amount: self.amount,
            creditor_addr: self.creditor_addr@,
            debtor_addr: self.debtor_addr@,
        }
    }
}

impl LogEntryModel {
    /// Well-formedness: the flag is binary and both address slots have
    /// the fixed width.
    pub open spec fn wf(self) -> bool {
        self.direction <= 1 && self.creditor_addr.len() == ADDR_WIDTH && self.debtor_addr.len()
            == ADDR_WIDTH
    }
}

impl DebtLogEntry {
    /// Well-formedness of the executable record.
    pub open spec fn wf(self) -> bool {
        self@.wf()
    }
}

/// The signed scalar that a `(direction, amount)` pair stands for:
/// positive when the slot-one (greater-address) party is net creditor.
pub open spec fn entry_net(direction: u8, amount: u64) -> int {
    if direction == 0 {
        amount as int
    } else {
        -(amount as int)
    }
}

/// The signed value of one borrow event: positive when the lender is
/// the slot-one (greater-address) party of the pair.
pub open spec fn event_net(forward: bool, amount: u64) -> int {
    if forward {
        amount as int
    } else {
        -(amount as int)
    }
}

/// Merges one signed borrow event into a stored `(direction, amount)`
/// pair: accumulate when the signs agree, otherwise cancel against the
/// stored magnitude, flipping the direction only when the event's
/// magnitude is the larger one.
pub open spec fn spec_merge(direction: u8, value: u64, forward: bool, amount: u64) -> (u8, u64) {
    let event_direction: u8 = if forward {
        0
    } else {
        1
    };
    if direction == event_direction {
        (direction, (value + amount) as u64)
    } else if value < amount {
        (event_direction, (amount - value) as u64)
    } else {
        (direction, (value - amount) as u64)
    }
}

/// The magnitude of a signed scalar.
pub open spec fn magnitude_of(n: int) -> int {
    if n >= 0 {
        n
    } else {
        -n
    }
}

/// One merge step adds the event's signed value to the stored net: the
/// resulting pair is again binary-flagged, its magnitude is the new
/// net's magnitude, and the flag keeps its old value when the new net
/// is zero.
pub proof fn lemma_merge_net(direction: u8, value: u64, forward: bool, amount: u64)
    requires
        direction <= 1,
        magnitude_of(entry_net(direction, value) + event_net(forward, amount)) <= u64::MAX,
    ensures
        ({
            let merged = spec_merge(direction, value, forward, amount);
            let net = entry_net(direction, value) + event_net(forward, amount);
            merged.0 <= 1 && merged.1 == magnitude_of(net) && entry_net(merged.0, merged.1) == net
                && (net > 0 ==> merged.0 == 0) && (net < 0 ==> merged.0 == 1) && (net == 0
                ==> merged.0 == direction)
        }),
{
}

/// Reconciles one borrow event into the pair's log entry.
///
/// `addr_hi` and `addr_lo` are the pair's two raw addresses in canonical
/// order (greater first); `forward` says the current lender is the
/// greater-address party. Fails with `ArithmeticOverflow`, leaving the
/// entry unchanged, exactly when the event has the stored direction and
/// accumulating would wrap; otherwise the stored pair moves by the
/// event's signed value and both address slots are rewritten in
/// canonical order.
pub fn reconcile_entry(
    entry: &mut DebtLogEntry,
    addr_hi: &Vec<u8>,
    addr_lo: &Vec<u8>,
    forward: bool,
    amount: u64,
) -> (r: Result<(), LedgerError>)
    requires
        old(entry).wf(),
        addr_hi@.len() == ADDR_WIDTH,
        addr_lo@.len() == ADDR_WIDTH,
        bytes_gt(addr_hi@, addr_lo@),
    ensures
        r is Ok <==> magnitude_of(
            entry_net(old(entry).direction, old(entry).amount) + event_net(forward, amount),
        ) <= u64::MAX,
        r is Ok ==> final(entry).wf() && (final(entry).direction, final(entry).amount)
            == spec_merge(old(entry).direction, old(entry).amount, forward, amount) && entry_net(
            final(entry).direction,
            final(entry).amount,
        ) == entry_net(old(entry).direction, old(entry).amount) + event_net(forward, amount)
            && final(entry).creditor_addr@ == addr_hi@ && final(entry).debtor_addr@ == addr_lo@,
        r is Err ==> *final(entry) == *old(entry) && r == Err::<(), LedgerError>(
            LedgerError::ArithmeticOverflow,
        ),
{
    let event_direction: u8 = if forward {
        0
    } else {
        1
    };
    if entry.direction == event_direction {
        if amount > u64::MAX - entry.amount {
            return Err(LedgerError::ArithmeticOverflow);
        }
        entry.amount = entry.amount + amount;
    } else if entry.amount < amount {
        entry.direction = event_direction;
        entry.amount = amount - entry.amount;
    } else {
        entry.amount = entry.amount - amount;
    }
    entry.creditor_addr = addr_hi.clone();
    entry.debtor_addr = addr_lo.clone();
    proof {
        lemma_merge_net(old(entry).direction, old(entry).amount, forward, amount);
    }
    Ok(())
}

/// The model of a debt-log entry after one event is reconciled into
/// it: the stored pair merged with the event, and both address slots
/// rewritten in canonical order.
pub open spec fn spec_reconciled(
    m: LogEntryModel,
    addr_hi: Seq<u8>,
    addr_lo: Seq<u8>,
    forward: bool,
    amount: u64,
) -> LogEntryModel {
    let merged = spec_merge(m.direction, m.amount, forward, amount);
    LogEntryModel {
        direction: merged.0,
        amount: merged.1,
        creditor_addr: addr_hi,
        debtor_addr: addr_lo,
    }
}

/// Reconciles one borrow event into the pair's stored log record, in
/// place.
///
/// An empty buffer means the record was never provisioned: the caller
/// must have the provisioning collaborator create the zero-filled
/// record first. A buffer of any other wrong length, or one whose
/// direction byte is not binary, is corrupt. On success the buffer
/// holds the merged entry with both address slots in canonical order;
/// on any failure it is untouched.
pub fn reconcile_record(
    buf: &mut Vec<u8>,
    addr_hi: &Vec<u8>,
    addr_lo: &Vec<u8>,
    forward: bool,
    amount: u64,
) -> (r: Result<(), LedgerError>)
    requires
        addr_hi@.len() == ADDR_WIDTH,
        addr_lo@.len() == ADDR_WIDTH,
        bytes_gt(addr_hi@, addr_lo@),
    ensures
        r is Ok <==> old(buf)@.len() == LOG_ENTRY_WIDTH && old(buf)@[0] <= 1 && magnitude_of(
            entry_net(spec_decode_entry(old(buf)@).direction, spec_decode_entry(old(buf)@).amount)
                + event_net(forward, amount),
        ) <= u64::MAX,
        r is Ok ==> final(buf)@ == spec_encode_entry(
            spec_reconciled(spec_decode_entry(old(buf)@), addr_hi@, addr_lo@, forward, amount),
        ),
        r is Err ==> final(buf)@ == old(buf)@,
        old(buf)@.len() == 0 ==> r == Err::<(), LedgerError>(LedgerError::NotProvisioned),
        old(buf)@.len() != 0 && !(old(buf)@.len() == LOG_ENTRY_WIDTH && old(buf)@[0] <= 1) ==> r
            == Err::<(), LedgerError>(LedgerError::MalformedRecord),
        old(buf)@.len() == LOG_ENTRY_WIDTH && old(buf)@[0] <= 1 && magnitude_of(
            entry_net(spec_decode_entry(old(buf)@).direction, spec_decode_entry(old(buf)@).amount)
                + event_net(forward, amount),
        ) > u64::MAX ==> r == Err::<(), LedgerError>(LedgerError::ArithmeticOverflow),
{
    if buf.len() == 0 {
        return Err(LedgerError::NotProvisioned);
    }
    let mut entry = match decode_entry(buf) {
        Ok(entry) => entry,
        Err(e) => {
            return Err(e);
        },
    };
    match reconcile_entry(&mut entry, addr_hi, addr_lo, forward, amount) {
        Ok(()) => {},
        Err(e) => {
            return Err(e);
        },
    }
    match encode_entry(&entry, buf) {
        Ok(()) => Ok(()),
        Err(e) => Err(e),
    }
}

/// A debt-log line as a reader reports it: which counterparty is the
/// net creditor, which is the net debtor, and the outstanding
/// magnitude between them.
#[derive(Clone, Debug, PartialEq, Eq)]
pub struct LogData {
    pub creditor: Vec<u8>,
    pub debtor: Vec<u8>,
    pub amount: u64,
}

/// Projects a stored entry to its reader view: with direction zero the
/// slot-one (greater-address) party is the net creditor, with
/// direction one the slot-two party is.
pub fn log_data(entry: &DebtLogEntry) -> (r: LogData)
    requires
        entry.wf(),
    ensures
        r.amount == entry.amount,
        entry.direction == 0 ==> r.creditor@ == entry.creditor_addr@ && r.debtor@
            == entry.debtor_addr@,
        entry.direction == 1 ==> r.creditor@ == entry.debtor_addr@ && r.debtor@
            == entry.creditor_addr@,
{
    if entry.direction == 0 {
        LogData {
            creditor: entry.creditor_addr.clone(),
            debtor: entry.debtor_addr.clone(),
            amount: entry.amount,
        }
    } else {
        LogData {
            creditor: entry.debtor_addr.clone(),
            debtor: entry.creditor_addr.clone(),
            amount: entry.amount,
        }
    }
}

/// One borrow event between a fixed canonical pair, as the debt log
/// sees it.
#[derive(Clone, Copy, Debug, PartialEq, Eq, Structural)]
pub struct BorrowEvent {
    pub forward: bool,
    pub amount: u64,
}

/// The algebraic sum of a sequence of signed borrow events.
pub open spec fn net_of_events(events: Seq<BorrowEvent>) -> int
    decreases events.len(),
{
    if events.len() == 0 {
        0
    } else {
        net_of_events(events.drop_last()) + event_net(events.last().forward, events.last().amount)
    }
}

/// The stored `(direction, amount)` pair after folding a sequence of
/// events into an empty log record, one merge at a time.
pub open spec fn merge_all(events: Seq<BorrowEvent>) -> (u8, u64)
    decreases events.len(),
{
    if events.len() == 0 {
        (0u8, 0u64)
    } else {
        let folded = merge_all(events.drop_last());
        spec_merge(folded.0, folded.1, events.last().forward, events.last().amount)
    }
}

/// No prefix of the event sequence sums beyond the machine word in
/// magnitude, so no merge step wraps.
pub open spec fn events_bounded(events: Seq<BorrowEvent>) -> bool {
    forall|i: int| 0 <= i <= events.len() ==> magnitude_of(net_of_events(events.take(i))) <= u64::MAX
}

/// The debt log tracks the algebraic sum of all events so far: after
/// any sequence of borrow events between the same canonical pair, the
/// stored pair is exactly the sum of the events' signed values,
/// expressed as one sign and one magnitude.
pub proof fn lemma_log_tracks_event_sum(events: Seq<BorrowEvent>)
    requires
        events_bounded(events),
    ensures
        ({
            let folded = merge_all(events);
            let net = net_of_events(events);
            folded.0 <= 1 && folded.1 == magnitude_of(net) && entry_net(folded.0, folded.1) == net
                && (net > 0 ==> folded.0 == 0) && (net < 0 ==> folded.0 == 1)
        }),
    decreases events.len(),
{
    if events.len() == 0 {
    } else {
        let prefix = events.drop_last();
        assert forall|i: int| 0 <= i <= prefix.len() implies magnitude_of(
            net_of_events(prefix.take(i)),
        ) <= u64::MAX by {
            assert(prefix.take(i) =~= events.take(i));
        }
        lemma_log_tracks_event_sum(prefix);
        let folded = merge_all(prefix);
        assert(events.take(events.len() as int) =~= events);
        assert(prefix.take(prefix.len() as int) =~= prefix);
        lemma_merge_net(folded.0, folded.1, events.last().forward, events.last().amount);
    }
}

} // verus!
