use vstd::prelude::*;

use crate::codec::{read_bytes, write_bytes};
use crate::debtlog::ADDR_WIDTH;
use crate::error::LedgerError;

verus! {

/// The number of counterparty slots of one registry record.
pub const REGISTRY_SLOTS: usize = 40;

/// The fixed width of an encoded registry record: forty address slots.
pub const REGISTRY_WIDTH: usize = 1280;

/// The bytes of slot `i` of a registry record.
pub open spec fn slot_bytes(book: Seq<u8>, i: int) -> Seq<u8> {
    book.subrange(ADDR_WIDTH * i, ADDR_WIDTH * (i + 1))
}

/// A zero-filled slot marks an unused position.
pub open spec fn slot_unused(book: Seq<u8>, i: int) -> bool {
    forall|j: int| ADDR_WIDTH * i <= j < ADDR_WIDTH * (i + 1) ==> book[j] == 0
}

/// The first unused slot at or after position `i`, or the slot count
/// when every remaining slot is used.
pub open spec fn first_unused_from(book: Seq<u8>, i: int) -> int
    decreases REGISTRY_SLOTS - i,
{
    if i < 0 || i >= REGISTRY_SLOTS {
        REGISTRY_SLOTS as int
    } else if slot_unused(book, i) {
        i
    } else {
        first_unused_from(book, i + 1)
    }
}

/// The first unused slot of the registry: the position where the scan
/// from the start appends, or the slot count when the registry is full.
pub open spec fn first_unused(book: Seq<u8>) -> int {
    first_unused_from(book, 0)
}

/// Decides whether slot `i` is zero-filled.
fn slot_is_unused(book: &Vec<u8>, i: usize) -> (r: bool)
    requires
        book@.len() == REGISTRY_WIDTH,
        i < REGISTRY_SLOTS,
    ensures
        r == slot_unused(book@, i as int),
{
    let base = i * ADDR_WIDTH;
    let mut j: usize = 0;
    while j < ADDR_WIDTH
        invariant
            base == i * ADDR_WIDTH,
            i < REGISTRY_SLOTS,
            book@.len() == REGISTRY_WIDTH,
            0 <= j <= ADDR_WIDTH,
            forall|t: int| base <= t < base + j ==> book@[t] == 0,
        decreases ADDR_WIDTH - j,
    {
        if book[base + j] != 0 {
            return false;
        }
        j = j + 1;
    }
    true
}

/// Scanning on from a used slot lands on the same first unused slot.
proof fn lemma_first_unused_step(book: Seq<u8>, i: int)
    requires
        0 <= i < REGISTRY_SLOTS,
        !slot_unused(book, i),
    ensures
        first_unused_from(book, i) == first_unused_from(book, i + 1),
{
}

/// Appends a counterparty address at the first unused slot of the
/// registry record, scanning from the start.
///
/// Fails with `MalformedRecord` when the buffer's length is not the
/// fixed registry width, and with `RegistryFull` when all slots are
/// used; in both cases the record is untouched — in particular, on a
/// full registry every existing slot stays as it was. On success the
/// returned index is the slot written and every byte outside that slot
/// is kept.
pub fn registry_append(book: &mut Vec<u8>, addr: &Vec<u8>) -> (r: Result<usize, LedgerError>)
    requires
        addr@.len() == ADDR_WIDTH,
    ensures
        r is Ok <==> old(book)@.len() == REGISTRY_WIDTH && first_unused(old(book)@)
            < REGISTRY_SLOTS,
        r is Ok ==> ({
            let k = first_unused(old(book)@);
            r->Ok_0 == k && final(book)@ == old(book)@.subrange(0, ADDR_WIDTH * k) + addr@ + old(
                book,
            )@.subrange(ADDR_WIDTH * (k + 1), REGISTRY_WIDTH as int)
        }),
        r is Err ==> final(book)@ == old(book)@,
        old(book)@.len() != REGISTRY_WIDTH ==> r == Err::<usize, LedgerError>(
            LedgerError::MalformedRecord,
        ),
        old(book)@.len() == REGISTRY_WIDTH && first_unused(old(book)@) == REGISTRY_SLOTS ==> r
            == Err::<usize, LedgerError>(LedgerError::RegistryFull),
{
    if book.len() != REGISTRY_WIDTH {
        return Err(LedgerError::MalformedRecord);
    }
    let mut i: usize = 0;
    while i < REGISTRY_SLOTS
        invariant
            0 <= i <= REGISTRY_SLOTS,
            book@ == old(book)@,
            book@.len() == REGISTRY_WIDTH,
            addr@.len() == ADDR_WIDTH,
            first_unused(book@) == first_unused_from(book@, i as int),
        decreases REGISTRY_SLOTS - i,
    {
        if slot_is_unused(book, i) {
            let base = i * ADDR_WIDTH;
            write_bytes(book, base, addr);
            proof {
                assert(first_unused(old(book)@) == i as int);
                let k = i as int;
                assert(book@ =~= old(book)@.subrange(0, ADDR_WIDTH * k) + addr@ + old(
                    book,
                )@.subrange(ADDR_WIDTH * (k + 1), REGISTRY_WIDTH as int));
            }
            return Ok(i);
        }
        proof {
            lemma_first_unused_step(book@, i as int);
        }
        i = i + 1;
    }
    Err(LedgerError::RegistryFull)
}

/// Reads the used counterparty addresses of the registry record, in
/// slot order, stopping at the first unused slot — the same prefix the
/// append scan walks over.
///
/// Fails with `MalformedRecord` exactly when the buffer's length is not
/// the fixed registry width.
pub fn registry_entries(book: &Vec<u8>) -> (r: Result<Vec<Vec<u8>>, LedgerError>)
    ensures
        r is Ok <==> book@.len() == REGISTRY_WIDTH,
        r is Err ==> r == Err::<Vec<Vec<u8>>, LedgerError>(LedgerError::MalformedRecord),
        r is Ok ==> ({
            let v = r->Ok_0;
            v@.len() == first_unused(book@) && forall|k: int|
                0 <= k < v@.len() ==> v@[k]@ == slot_bytes(book@, k)
        }),
{
    if book.len() != REGISTRY_WIDTH {
        return Err(LedgerError::MalformedRecord);
    }
    let mut out: Vec<Vec<u8>> = Vec::new();
    let mut i: usize = 0;
    while i < REGISTRY_SLOTS
        invariant
            0 <= i <= REGISTRY_SLOTS,
            book@.len() == REGISTRY_WIDTH,
            out@.len() == i,
            first_unused(book@) == first_unused_from(book@, i as int),
            forall|k: int| 0 <= k < i ==> out@[k]@ == slot_bytes(book@, k),
        decreases REGISTRY_SLOTS - i,
    {
        if slot_is_unused(book, i) {
            return Ok(out);
        }
        let slot = read_bytes(book, i * ADDR_WIDTH, ADDR_WIDTH);
        out.push(slot);
        proof {
            lemma_first_unused_step(book@, i as int);
        }
        i = i + 1;
    }
    Ok(out)
}

} // verus!
