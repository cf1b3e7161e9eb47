//! Values a chain client reads or submits about sessions.
use vstd::prelude::*;

verus! {

broadcast use vstd::array::group_array_axioms;

/// A validator's two session keys.
#[derive(Clone, Copy, Debug, PartialEq, Eq)]
pub struct Keys {
    pub aura: [u8; 32],
    pub aleph: [u8; 32],
}

fn take_32(bytes: &Vec<u8>, start: usize) -> (r: [u8; 32])
    requires
        start <= 32,
        start + 32 <= bytes@.len(),
    ensures
        r@ == bytes@.subrange(start as int, start + 32),
{
    let mut out: [u8; 32] = [0u8; 32];
    let mut i: usize = 0;
    while i < 32
        invariant
            i <= 32,
            start + 32 <= bytes@.len(),
            start <= 32,
            forall|j: int| 0 <= j < i ==> out[j] == bytes@[start + j],
        decreases 32 - i,
    {
        out[i] = bytes[start + i];
        i = i + 1;
    }
    assert(out@ =~= bytes@.subrange(start as int, start + 32));
    out
}

impl Keys {
    /// Splits 64 bytes into the two keys: the first 32 are the aura key, the
    /// last 32 the aleph key.
    pub fn from_bytes(bytes: &Vec<u8>) -> (r: Keys)
        requires
            bytes@.len() == 64,
        ensures
            r.aura@ == bytes@.subrange(0, 32),
            r.aleph@ == bytes@.subrange(32, 64),
    {
        Keys { aura: take_32(bytes, 0), aleph: take_32(bytes, 32) }
    }
}

/// The little-endian `u32` in the first four of `bytes`.
pub open spec fn le_u32(bytes: Seq<u8>) -> int {
    bytes[0] + 256 * bytes[1] + 65536 * bytes[2] + 16777216 * bytes[3]
}

/// The session period, from the encoded value of the chain's session-period
/// constant: a little-endian `u32`.
pub fn get_session_period(encoded: &Vec<u8>) -> (r: u32)
    requires
        encoded@.len() >= 4,
    ensures
        r == le_u32(encoded@),
{
    let b0 = encoded[0] as u32;
    let b1 = encoded[1] as u32;
    let b2 = encoded[2] as u32;
    let b3 = encoded[3] as u32;
    b0 + 256 * b1 + 65536 * b2 + 16777216 * b3
}

} // verus!
