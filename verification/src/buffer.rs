//! Raw buffers as the host delivers them: an address and a count, of which
//! either may say that there is nothing to read.

use vstd::prelude::*;
use vstd::slice::slice_subrange;

verus! {

/// Number of bytes that may be read through a buffer at `addr` for which the
/// host reports `count` bytes: none through a null address or for a count
/// that is not positive.
pub open spec fn readable(addr: usize, count: int) -> int {
    if addr == 0 || count <= 0 {
        0
    } else if count <= usize::MAX {
        count
    } else {
        usize::MAX as int
    }
}

/// The payload a callback sees: the first `readable(addr, count)` bytes of
/// the memory behind the buffer, as far as `mem` holds them.
pub open spec fn payload_of(addr: usize, count: int, mem: Seq<u8>) -> Seq<u8> {
    if readable(addr, count) <= mem.len() {
        mem.subrange(0, readable(addr, count))
    } else {
        mem
    }
}

/// A null address or a count that is not positive gives the empty payload,
/// whatever memory is offered.
pub proof fn lemma_nothing_to_read(addr: usize, count: int, mem: Seq<u8>)
    requires
        addr == 0 || count <= 0,
    ensures
        readable(addr, count) == 0,
        payload_of(addr, count, mem) == Seq::<u8>::empty(),
{
    assert(mem.subrange(0, 0) =~= Seq::<u8>::empty());
}

/// The payload is a prefix of the memory offered and never longer than the
/// count the host reported.
pub proof fn lemma_payload_is_bounded(addr: usize, count: int, mem: Seq<u8>)
    ensures
        payload_of(addr, count, mem).len() <= mem.len(),
        payload_of(addr, count, mem).len() <= readable(addr, count),
        payload_of(addr, count, mem) == mem.subrange(0, payload_of(addr, count, mem).len() as int),
{
    assert(mem.subrange(0, mem.len() as int) =~= mem);
}

/// Number of bytes that may be read through the buffer.
pub fn readable_len(addr: usize, count: i64) -> (n: usize)
    ensures
        n == readable(addr, count as int),
{
    if addr == 0 || count <= 0 {
        0
    } else if count as u64 <= usize::MAX as u64 {
        count as usize
    } else {
        usize::MAX
    }
}

/// Cuts `mem` down to the payload of the buffer.
pub fn payload<'a>(addr: usize, count: i64, mem: &'a [u8]) -> (bytes: &'a [u8])
    ensures
        bytes@ == payload_of(addr, count as int, mem@),
{
    let n = readable_len(addr, count);
    if n <= mem.len() {
        slice_subrange(mem, 0, n)
    } else {
        mem
    }
}

} // verus!
