use vstd::prelude::*;
use vstd::pervasive::VecAdditionalExecFns;

use crate::debtlog::{DebtLogEntry, LogEntryModel, ADDR_WIDTH};
use crate::error::LedgerError;
use crate::ledger::LedgerAccount;

verus! {

/// The fixed width of an encoded ledger account record.
pub const ACCOUNT_RECORD_WIDTH: usize = 32;

/// The fixed width of an encoded debt-log entry.
pub const LOG_ENTRY_WIDTH: usize = 73;

/// A 64-bit value as eight big-endian bytes.
pub open spec fn spec_u64_to_be_bytes(x: u64) -> Seq<u8> {
    seq![
        (x >> 56) as u8,
        (x >> 48) as u8,
        (x >> 40) as u8,
        (x >> 32) as u8,
        (x >> 24) as u8,
        (x >> 16) as u8,
        (x >> 8) as u8,
        x as u8,
    ]
}

/// Eight big-endian bytes as a 64-bit value.
pub open spec fn spec_u64_from_be_bytes(s: Seq<u8>) -> u64
    recommends
        s.len() == 8,
{
    ((s[0] as u64) << 56) | ((s[1] as u64) << 48) | ((s[2] as u64) << 40) | ((s[3] as u64) << 32)
        | ((s[4] as u64) << 24) | ((s[5] as u64) << 16) | ((s[6] as u64) << 8) | (s[7] as u64)
}

/// Reading back the eight big-endian bytes of a value yields the value.
pub proof fn lemma_u64_be_round_trip(x: u64)
    ensures
        spec_u64_from_be_bytes(spec_u64_to_be_bytes(x)) == x,
{
    let b0 = (x >> 56) as u8;
    let b1 = (x >> 48) as u8;
    let b2 = (x >> 40) as u8;
    let b3 = (x >> 32) as u8;
    let b4 = (x >> 24) as u8;
    let b5 = (x >> 16) as u8;
    let b6 = (x >> 8) as u8;
    let b7 = x as u8;
    assert(((b0 as u64) << 56) | ((b1 as u64) << 48) | ((b2 as u64) << 40) | ((b3 as u64) << 32)
        | ((b4 as u64) << 24) | ((b5 as u64) << 16) | ((b6 as u64) << 8) | (b7 as u64) == x)
        by (bit_vector)
        requires
            b0 == (x >> 56) as u8,
            b1 == (x >> 48) as u8,
            b2 == (x >> 40) as u8,
            b3 == (x >> 32) as u8,
            b4 == (x >> 24) as u8,
            b5 == (x >> 16) as u8,
            b6 == (x >> 8) as u8,
            b7 == x as u8,
    ;
}

/// Reads the big-endian 64-bit field at `off`.
pub fn read_u64_be(buf: &Vec<u8>, off: usize) -> (r: u64)
    requires
        off + 8 <= buf@.len(),
    ensures
        r == spec_u64_from_be_bytes(buf@.subrange(off as int, off + 8)),
{
    let n = buf.len();
    let r = ((buf[off] as u64) << 56) | ((buf[off + 1] as u64) << 48) | ((buf[off + 2] as u64)
        << 40) | ((buf[off + 3] as u64) << 32) | ((buf[off + 4] as u64) << 24) | ((buf[off
        + 5] as u64) << 16) | ((buf[off + 6] as u64) << 8) | (buf[off + 7] as u64);
    proof {
        let s = buf@.subrange(off as int, off + 8);
        assert(s[0] == buf@[off as int]);
        assert(s[1] == buf@[off + 1]);
        assert(s[2] == buf@[off + 2]);
        assert(s[3] == buf@[off + 3]);
        assert(s[4] == buf@[off + 4]);
        assert(s[5] == buf@[off + 5]);
        assert(s[6] == buf@[off + 6]);
        assert(s[7] == buf@[off + 7]);
    }
    r
}

/// Writes `x` as a big-endian 64-bit field at `off`, leaving every
/// other byte in place.
pub fn write_u64_be(buf: &mut Vec<u8>, off: usize, x: u64)
    requires
        off + 8 <= old(buf)@.len(),
    ensures
        final(buf)@.len() == old(buf)@.len(),
        final(buf)@.subrange(off as int, off + 8) == spec_u64_to_be_bytes(x),
        forall|i: int|
            0 <= i < old(buf)@.len() && !(off <= i < off + 8) ==> final(buf)@[i] == old(buf)@[i],
{
    let n = buf.len();
    buf.set(off, #[verifier::truncate] ((x >> 56) as u8));
    buf.set(off + 1, #[verifier::truncate] ((x >> 48) as u8));
    buf.set(off + 2, #[verifier::truncate] ((x >> 40) as u8));
    buf.set(off + 3, #[verifier::truncate] ((x >> 32) as u8));
    buf.set(off + 4, #[verifier::truncate] ((x >> 24) as u8));
    buf.set(off + 5, #[verifier::truncate] ((x >> 16) as u8));
    buf.set(off + 6, #[verifier::truncate] ((x >> 8) as u8));
    buf.set(off + 7, #[verifier::truncate] (x as u8));
    proof {
        assert(buf@.subrange(off as int, off + 8) =~= spec_u64_to_be_bytes(x));
    }
}

/// Copies `src` into `buf` starting at `off`, leaving every other byte
/// in place.
pub fn write_bytes(buf: &mut Vec<u8>, off: usize, src: &Vec<u8>)
    requires
        off + src@.len() <= old(buf)@.len(),
    ensures
        final(buf)@.len() == old(buf)@.len(),
        final(buf)@.subrange(off as int, off + src@.len()) == src@,
        forall|i: int|
            0 <= i < old(buf)@.len() && !(off <= i < off + src@.len()) ==> final(buf)@[i] == old(
                buf,
            )@[i],
{
    let n = buf.len();
    let mut k: usize = 0;
    while k < src.len()
        invariant
            0 <= k <= src@.len(),
            off + src@.len() <= buf@.len(),
            buf@.len() == n,
            buf@.len() == old(buf)@.len(),
            forall|j: int| 0 <= j < k ==> buf@[off + j] == src@[j],
            forall|i: int|
                0 <= i < old(buf)@.len() && !(off <= i < off + k) ==> buf@[i] == old(buf)@[i],
        decreases src@.len() - k,
    {
        buf.set(off + k, src[k]);
        k = k + 1;
    }
    proof {
        assert(buf@.subrange(off as int, off + src@.len()) =~= src@);
    }
}

/// Copies the `len` bytes of `buf` starting at `off` out into a fresh
/// vector.
pub fn read_bytes(buf: &Vec<u8>, off: usize, len: usize) -> (r: Vec<u8>)
    requires
        off + len <= buf@.len(),
    ensures
        r@ == buf@.subrange(off as int, off + len),
{
    let n = buf.len();
    let mut r: Vec<u8> = Vec::new();
    let mut k: usize = 0;
    while k < len
        invariant
            0 <= k <= len,
            off + len <= n,
            n == buf@.len(),
            r@.len() == k,
            forall|j: int| 0 <= j < k ==> r@[j] == buf@[off + j],
        decreases len - k,
    {
        r.push(buf[off + k]);
        k = k + 1;
    }
    proof {
        assert(r@ =~= buf@.subrange(off as int, off + len));
    }
    r
}

/// The fixed big-endian layout of a ledger account record: balance,
/// frozen, borrowed, debited, eight bytes each.
pub open spec fn spec_encode_account(a: LedgerAccount) -> Seq<u8> {
    spec_u64_to_be_bytes(a.balance) + spec_u64_to_be_bytes(a.frozen) + spec_u64_to_be_bytes(
        a.borrowed,
    ) + spec_u64_to_be_bytes(a.debited)
}

/// The account record read back from its fixed layout.
pub open spec fn spec_decode_account(s: Seq<u8>) -> LedgerAccount
    recommends
        s.len() == ACCOUNT_RECORD_WIDTH,
{
    LedgerAccount {
        balance: spec_u64_from_be_bytes(s.subrange(0, 8)),
        frozen: spec_u64_from_be_bytes(s.subrange(8, 16)),
        borrowed: spec_u64_from_be_bytes(s.subrange(16, 24)),
        debited: spec_u64_from_be_bytes(s.subrange(24, 32)),
    }
}

/// Encoding an account record and decoding the bytes yields the
/// original record.
pub proof fn lemma_account_round_trip(a: LedgerAccount)
    ensures
        spec_decode_account(spec_encode_account(a)) == a,
{
    let s = spec_encode_account(a);
    assert(s.subrange(0, 8) =~= spec_u64_to_be_bytes(a.balance));
    assert(s.subrange(8, 16) =~= spec_u64_to_be_bytes(a.frozen));
    assert(s.subrange(16, 24) =~= spec_u64_to_be_bytes(a.borrowed));
    assert(s.subrange(24, 32) =~= spec_u64_to_be_bytes(a.debited));
    lemma_u64_be_round_trip(a.balance);
    lemma_u64_be_round_trip(a.frozen);
    lemma_u64_be_round_trip(a.borrowed);
    lemma_u64_be_round_trip(a.debited);
}

/// Writes the account record into its backing buffer, in place and all
/// or nothing.
///
/// Fails with `MalformedRecord`, leaving the buffer untouched, exactly
/// when the buffer's length is not the fixed record width.
pub fn encode_account(a: &LedgerAccount, buf: &mut Vec<u8>) -> (r: Result<(), LedgerError>)
    ensures
        r is Ok <==> old(buf)@.len() == ACCOUNT_RECORD_WIDTH,
        r is Ok ==> final(buf)@ == spec_encode_account(*a),
        r is Err ==> final(buf)@ == old(buf)@ && r == Err::<(), LedgerError>(
            LedgerError::MalformedRecord,
        ),
{
    if buf.len() != ACCOUNT_RECORD_WIDTH {
        return Err(LedgerError::MalformedRecord);
    }
    write_u64_be(buf, 0, a.balance);
    write_u64_be(buf, 8, a.frozen);
    write_u64_be(buf, 16, a.borrowed);
    write_u64_be(buf, 24, a.debited);
    proof {
        assert(buf@.subrange(0, 8) =~= spec_u64_to_be_bytes(a.balance));
        assert(buf@.subrange(8, 16) =~= spec_u64_to_be_bytes(a.frozen));
        assert(buf@.subrange(16, 24) =~= spec_u64_to_be_bytes(a.borrowed));
        assert(buf@ =~= spec_encode_account(*a));
    }
    Ok(())
}

/// Reads an account record out of its backing buffer.
///
/// Fails with `MalformedRecord` exactly when the buffer's length is not
/// the fixed record width.
pub fn decode_account(buf: &Vec<u8>) -> (r: Result<LedgerAccount, LedgerError>)
    ensures
        r is Ok <==> buf@.len() == ACCOUNT_RECORD_WIDTH,
        r is Ok ==> r->Ok_0 == spec_decode_account(buf@),
        r is Err ==> r == Err::<LedgerAccount, LedgerError>(LedgerError::MalformedRecord),
{
    if buf.len() != ACCOUNT_RECORD_WIDTH {
        return Err(LedgerError::MalformedRecord);
    }
    Ok(
        LedgerAccount {
            balance: read_u64_be(buf, 0),
            frozen: read_u64_be(buf, 8),
            borrowed: read_u64_be(buf, 16),
            debited: read_u64_be(buf, 24),
        },
    )
}

/// The fixed layout of a debt-log entry: the direction byte, the
/// big-endian magnitude, then the two canonical address slots.
pub open spec fn spec_encode_entry(m: LogEntryModel) -> Seq<u8> {
    seq![m.direction] + spec_u64_to_be_bytes(m.amount) + m.creditor_addr + m.debtor_addr
}

/// The debt-log entry read back from its fixed layout.
pub open spec fn spec_decode_entry(s: Seq<u8>) -> LogEntryModel
    recommends
        s.len() == LOG_ENTRY_WIDTH,
{
    LogEntryModel {
        direction: s[0],
        amount: spec_u64_from_be_bytes(s.subrange(1, 9)),
        creditor_addr: s.subrange(9, 41),
        debtor_addr: s.subrange(41, 73),
    }
}

/// Encoding a well-formed debt-log entry and decoding the bytes yields
/// the original entry.
pub proof fn lemma_entry_round_trip(m: LogEntryModel)
    requires
        m.wf(),
    ensures
        spec_decode_entry(spec_encode_entry(m)) == m,
{
    let s = spec_encode_entry(m);
    assert(s[0] == m.direction);
    assert(s.subrange(1, 9) =~= spec_u64_to_be_bytes(m.amount));
    assert(s.subrange(9, 41) =~= m.creditor_addr);
    assert(s.subrange(41, 73) =~= m.debtor_addr);
    lemma_u64_be_round_trip(m.amount);
}

/// Writes the debt-log entry into its backing buffer, in place and all
/// or nothing.
///
/// Fails with `MalformedRecord`, leaving the buffer untouched, exactly
/// when the buffer's length is not the fixed entry width.
pub fn encode_entry(e: &DebtLogEntry, buf: &mut Vec<u8>) -> (r: Result<(), LedgerError>)
    requires
        e.wf(),
    ensures
        r is Ok <==> old(buf)@.len() == LOG_ENTRY_WIDTH,
        r is Ok ==> final(buf)@ == spec_encode_entry(e@),
        r is Err ==> final(buf)@ == old(buf)@ && r == Err::<(), LedgerError>(
            LedgerError::MalformedRecord,
        ),
{
    if buf.len() != LOG_ENTRY_WIDTH {
        return Err(LedgerError::MalformedRecord);
    }
    buf.set(0, e.direction);
    write_u64_be(buf, 1, e.amount);
    write_bytes(buf, 9, &e.creditor_addr);
    write_bytes(buf, 41, &e.debtor_addr);
    proof {
        assert(buf@[0] == e.direction);
        assert(buf@.subrange(1, 9) =~= spec_u64_to_be_bytes(e.amount));
        assert(buf@.subrange(9, 41) =~= e.creditor_addr@);
        assert(buf@ =~= spec_encode_entry(e@));
    }
    Ok(())
}

/// Reads a debt-log entry out of its backing buffer.
///
/// Fails with `MalformedRecord` exactly when the buffer's length is not
/// the fixed entry width or the direction byte is not binary.
pub fn decode_entry(buf: &Vec<u8>) -> (r: Result<DebtLogEntry, LedgerError>)
    ensures
        r is Ok <==> buf@.len() == LOG_ENTRY_WIDTH && buf@[0] <= 1,
        r is Ok ==> r->Ok_0@ == spec_decode_entry(buf@) && r->Ok_0.wf(),
        r is Err ==> r == Err::<DebtLogEntry, LedgerError>(LedgerError::MalformedRecord),
{
    if buf.len() != LOG_ENTRY_WIDTH {
        return Err(LedgerError::MalformedRecord);
    }
    let direction = buf[0];
    if direction > 1 {
        return Err(LedgerError::MalformedRecord);
    }
    let amount = read_u64_be(buf, 1);
    let creditor_addr = read_bytes(buf, 9, ADDR_WIDTH);
    let debtor_addr = read_bytes(buf, 41, ADDR_WIDTH);
    Ok(DebtLogEntry { direction, amount, creditor_addr, debtor_addr })
}

} // verus!
