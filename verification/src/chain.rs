//! The chain identifier as the contract expects it on the wire.
//!
//! The network names a chain by a `u64`, but the contract takes the value as
//! a 256-bit big-endian integer: 24 zero bytes followed by the eight bytes of
//! the value, most significant first. [`into_chain_id`] produces exactly
//! [`chain_id_bytes`], and the value can be read back from the last eight
//! bytes ([`lemma_chain_id_round_trip`]).

use vstd::prelude::*;

verus! {

/// The 32-byte big-endian form of a chain identifier.
pub open spec fn chain_id_bytes(v: u64) -> Seq<u8> {
    Seq::new(
        32,
        |i: int|
            if i < 24 {
                0u8
            } else {
                (v >> (((31 - i) * 8) as u64)) as u8
            },
    )
}

/// The value eight big-endian bytes stand for.
pub open spec fn u64_from_be_bytes(s: Seq<u8>) -> u64
    recommends
        s.len() == 8,
{
    ((s[0] as u64) << 56) | ((s[1] as u64) << 48) | ((s[2] as u64) << 40) | ((s[3] as u64) << 32)
        | ((s[4] as u64) << 24) | ((s[5] as u64) << 16) | ((s[6] as u64) << 8) | (s[7] as u64)
}

/// The wire form of a chain identifier: exactly [`chain_id_bytes`].
pub fn into_chain_id(value: u64) -> (r: Vec<u8>)
    ensures
        r@ =~= chain_id_bytes(value),
{
    let mut bytes: Vec<u8> = Vec::new();
    let mut i: usize = 0;
    while i < 24
        invariant
            bytes@.len() == i,
            0 <= i <= 24,
            forall|j: int| 0 <= j < i ==> bytes@[j] == 0,
        decreases 24 - i,
    {
        bytes.push(0);
        i = i + 1;
    }
    while i < 32
        invariant
            bytes@.len() == i,
            24 <= i <= 32,
            forall|j: int| 0 <= j < 24 ==> bytes@[j] == 0,
            forall|j: int| 24 <= j < i ==> bytes@[j] == (value >> (((31 - j) * 8) as u64)) as u8,
        decreases 32 - i,
    {
        let shift: u64 = (31 - i as u64) * 8;
        bytes.push((value >> shift) as u8);
        i = i + 1;
    }
    assert(bytes@ =~= chain_id_bytes(value));
    bytes
}

/// The identifier is recoverable: the last eight bytes of its wire form read
/// back, big-endian, as the value itself.
pub proof fn lemma_chain_id_round_trip(v: u64)
    ensures
        u64_from_be_bytes(chain_id_bytes(v).subrange(24, 32)) == v,
{
    let s = chain_id_bytes(v).subrange(24, 32);
    let b0 = s[0];
    let b1 = s[1];
    let b2 = s[2];
    let b3 = s[3];
    let b4 = s[4];
    let b5 = s[5];
    let b6 = s[6];
    let b7 = s[7];
    assert(b0 == (v >> 56) as u8 && b1 == (v >> 48) as u8 && b2 == (v >> 40) as u8 && b3 == (v
        >> 32) as u8 && b4 == (v >> 24) as u8 && b5 == (v >> 16) as u8 && b6 == (v >> 8) as u8 && b7
        == (v >> 0) as u8);
    assert((((b0 as u64) << 56) | ((b1 as u64) << 48) | ((b2 as u64) << 40) | ((b3 as u64) << 32) | (
    (b4 as u64) << 24) | ((b5 as u64) << 16) | ((b6 as u64) << 8) | (b7 as u64)) == v)
        by (bit_vector)
        requires
            b0 == (v >> 56) as u8 && b1 == (v >> 48) as u8 && b2 == (v >> 40) as u8 && b3 == (v
                >> 32) as u8 && b4 == (v >> 24) as u8 && b5 == (v >> 16) as u8 && b6 == (v
                >> 8) as u8 && b7 == (v >> 0) as u8,
    ;
}

} // verus!
