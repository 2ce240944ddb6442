//! Reading and writing the fixed layouts in which ledgers and arguments are
//! stored: integers in little-endian order, addresses as their 32 bytes.
use crate::address::Address;
use vstd::bytes::*;
use vstd::prelude::*;
use vstd::slice::slice_subrange;

verus! {

/// The 64-bit integer stored at `offset`.
pub open spec fn spec_u64_at(data: Seq<u8>, offset: int) -> u64 {
    spec_u64_from_le_bytes(data.subrange(offset, offset + 8))
}

/// The 32-bit integer stored at `offset`.
pub open spec fn spec_u32_at(data: Seq<u8>, offset: int) -> u32 {
    spec_u32_from_le_bytes(data.subrange(offset, offset + 4))
}

/// The 128-bit integer stored at `offset`.
pub open spec fn spec_u128_at(data: Seq<u8>, offset: int) -> u128 {
    spec_u128_from_le_bytes(data.subrange(offset, offset + 16))
}

/// The bytes of the address stored at `offset`.
pub open spec fn spec_address_at(data: Seq<u8>, offset: int) -> Seq<u8> {
    data.subrange(offset, offset + 32)
}

/// Reads the 64-bit integer stored at `offset`.
pub fn read_u64(data: &[u8], offset: usize) -> (r: u64)
    requires
        offset + 8 <= data@.len(),
    ensures
        r == spec_u64_at(data@, offset as int),
{
    let len: usize = data.len();
    assert(offset + 8 <= len);
    u64_from_le_bytes(slice_subrange(data, offset, offset + 8))
}

/// Reads the 32-bit integer stored at `offset`.
pub fn read_u32(data: &[u8], offset: usize) -> (r: u32)
    requires
        offset + 4 <= data@.len(),
    ensures
        r == spec_u32_at(data@, offset as int),
{
    let len: usize = data.len();
    assert(offset + 4 <= len);
    u32_from_le_bytes(slice_subrange(data, offset, offset + 4))
}

/// Reads the 128-bit integer stored at `offset`.
pub fn read_u128(data: &[u8], offset: usize) -> (r: u128)
    requires
        offset + 16 <= data@.len(),
    ensures
        r == spec_u128_at(data@, offset as int),
{
    let len: usize = data.len();
    assert(offset + 16 <= len);
    u128_from_le_bytes(slice_subrange(data, offset, offset + 16))
}

/// Reads the address stored at `offset`.
pub fn read_address(data: &[u8], offset: usize) -> (r: Address)
    requires
        offset + 32 <= data@.len(),
    ensures
        r@ == spec_address_at(data@, offset as int),
{
    let len: usize = data.len();
    let mut bytes = [0u8; 32];
    let mut i: usize = 0;
    while i < 32
        invariant
            0 <= i <= 32,
            offset + 32 <= data@.len(),
            len == data@.len(),
            forall|j: int| 0 <= j < i ==> bytes@[j] == data@[offset + j],
        decreases 32 - i,
    {
        bytes[i] = data[offset + i];
        i += 1;
    }
    let r = Address { bytes };
    assert(r@ =~= spec_address_at(data@, offset as int));
    r
}

/// Appends the 64-bit integer in little-endian order.
pub fn put_u64(out: &mut Vec<u8>, x: u64)
    ensures
        final(out)@ == old(out)@ + spec_u64_to_le_bytes(x),
        final(out)@.len() == old(out)@.len() + 8,
{
    let mut bytes = u64_to_le_bytes(x);
    out.append(&mut bytes);
}

/// Appends the 32-bit integer in little-endian order.
pub fn put_u32(out: &mut Vec<u8>, x: u32)
    ensures
        final(out)@ == old(out)@ + spec_u32_to_le_bytes(x),
        final(out)@.len() == old(out)@.len() + 4,
{
    let mut bytes = u32_to_le_bytes(x);
    out.append(&mut bytes);
}

/// Appends the 128-bit integer in little-endian order.
pub fn put_u128(out: &mut Vec<u8>, x: u128)
    ensures
        final(out)@ == old(out)@ + spec_u128_to_le_bytes(x),
        final(out)@.len() == old(out)@.len() + 16,
{
    let mut bytes = u128_to_le_bytes(x);
    out.append(&mut bytes);
}

/// Appends the 32 bytes of the address.
pub fn put_address(out: &mut Vec<u8>, a: &Address)
    ensures
        final(out)@ == old(out)@ + a@,
        final(out)@.len() == old(out)@.len() + 32,
{
    let mut bytes = a.to_vec();
    out.append(&mut bytes);
}

/// What was written is what is read back: an integer appended to `head`
/// is found at the offset where `head` ended.
pub proof fn lemma_u64_written_is_read(head: Seq<u8>, x: u64, tail: Seq<u8>)
    ensures
        spec_u64_at(head + spec_u64_to_le_bytes(x) + tail, head.len() as int) == x,
{
    lemma_auto_spec_u64_to_from_le_bytes();
    let all = head + spec_u64_to_le_bytes(x) + tail;
    assert(all.subrange(head.len() as int, head.len() as int + 8) =~= spec_u64_to_le_bytes(x));
}

/// A 32-bit integer appended to `head` is found where `head` ended.
pub proof fn lemma_u32_written_is_read(head: Seq<u8>, x: u32, tail: Seq<u8>)
    ensures
        spec_u32_at(head + spec_u32_to_le_bytes(x) + tail, head.len() as int) == x,
{
    lemma_auto_spec_u32_to_from_le_bytes();
    let all = head + spec_u32_to_le_bytes(x) + tail;
    assert(all.subrange(head.len() as int, head.len() as int + 4) =~= spec_u32_to_le_bytes(x));
}

/// A 128-bit integer appended to `head` is found where `head` ended.
pub proof fn lemma_u128_written_is_read(head: Seq<u8>, x: u128, tail: Seq<u8>)
    ensures
        spec_u128_at(head + spec_u128_to_le_bytes(x) + tail, head.len() as int) == x,
{
    lemma_auto_spec_u128_to_from_le_bytes();
    let all = head + spec_u128_to_le_bytes(x) + tail;
    assert(all.subrange(head.len() as int, head.len() as int + 16) =~= spec_u128_to_le_bytes(x));
}

/// An address appended to `head` is found where `head` ended.
pub proof fn lemma_address_written_is_read(head: Seq<u8>, a: Seq<u8>, tail: Seq<u8>)
    requires
        a.len() == 32,
    ensures
        spec_address_at(head + a + tail, head.len() as int) == a,
{
    let all = head + a + tail;
    assert(all.subrange(head.len() as int, head.len() as int + 32) =~= a);
}

} // verus!
