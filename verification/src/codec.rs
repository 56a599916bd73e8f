//! The fixed-width binary encoding of the count: four little-endian bytes at
//! the front of the account buffer. Encoding and decoding are done by borsh,
//! behind contracts that pin the byte layout down exactly.

use vstd::prelude::*;

verus! {

/// The four little-endian bytes that encode a count.
pub open spec fn count_to_bytes(v: u32) -> Seq<u8> {
    seq![
        (v & 0xff) as u8,
        ((v >> 8) & 0xff) as u8,
        ((v >> 16) & 0xff) as u8,
        ((v >> 24) & 0xff) as u8,
    ]
}

/// The count encoded by the first four bytes of `s`, little-endian.
pub open spec fn count_from_bytes(s: Seq<u8>) -> u32
    recommends
        s.len() >= 4,
{
    ((s[0] as u32) | ((s[1] as u32) << 8) | ((s[2] as u32) << 16) | ((s[3] as u32) << 24)) as u32
}

/// Decoding inverts encoding: the encoding is stable across calls, so a read
/// always recovers exactly the value the previous write put down.
pub proof fn lemma_count_round_trip(v: u32)
    ensures
        count_from_bytes(count_to_bytes(v)) == v,
{
    let s = count_to_bytes(v);
    assert(s[0] == (v & 0xff) as u8);
    assert(s[1] == ((v >> 8) & 0xff) as u8);
    assert(s[2] == ((v >> 16) & 0xff) as u8);
    assert(s[3] == ((v >> 24) & 0xff) as u8);
    assert((((v & 0xff) as u8 as u32) | ((((v >> 8) & 0xff) as u8 as u32) << 8) | ((((v >> 16)
        & 0xff) as u8 as u32) << 16) | ((((v >> 24) & 0xff) as u8 as u32) << 24)) as u32 == v)
        by (bit_vector);
}

/// Relies on borsh's `u32` deserialization (`borsh::from_slice`, the same
/// reader the derived counter struct uses): it succeeds exactly when the
/// input is four bytes long, reading the value in little-endian order, and
/// rejects shorter input as truncated and longer input as not fully consumed.
#[verifier::external_body]
pub(crate) fn load_count(bytes: &[u8]) -> (r: Option<u32>)
    ensures
        bytes@.len() == 4 ==> r == Some(count_from_bytes(bytes@)),
        bytes@.len() != 4 ==> r is None,
{
    borsh::from_slice::<u32>(bytes).ok()
}

/// Relies on borsh's `u32` serialization (`BorshSerialize::serialize`) into a
/// mutable byte slice: it writes the value's four little-endian bytes at the
/// front of the slice, leaves the remaining bytes untouched, and succeeds
/// whenever at least four bytes of room are available.
#[verifier::external_body]
pub(crate) fn store_count(v: u32, buf: &mut Vec<u8>)
    requires
        old(buf)@.len() >= 4,
    ensures
        final(buf)@ == count_to_bytes(v) + old(buf)@.skip(4),
{
    let mut dst: &mut [u8] = buf.as_mut_slice();
    borsh::BorshSerialize::serialize(&v, &mut dst).unwrap();
}

} // verus!
