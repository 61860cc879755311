//! The state of the 16 keys, kept as a packed bit array of the `bitvec` crate.
//! Everything in this file is trusted: Verus does not look inside the bit
//! array, and believes what is stated here of the calls into it.
use vstd::prelude::*;
use crate::semantics::NUM_KEYS;

verus! {

/// The key states' bit array. Key `k` is the bit at index `k`; a set bit is a
/// key that is down.
///
/// The array is opaque to Verus, which does not take the bounds of
/// `bitvec::array::BitArray`: what it holds is [`key_bits`].
#[verifier::external_body]
pub struct KeyPad {
    bits: bitvec::array::BitArray<[u16; 1], bitvec::order::Lsb0>,
}

/// The bits that a key pad holds, by index.
pub uninterp spec fn key_bits(pad: KeyPad) -> Seq<bool>;

/// `bitvec::array::BitArray::ZERO`: an array with every bit clear. One `u16`
/// element holds 16 bits.
#[verifier::external_body]
pub(crate) fn keys_blank() -> (pad: KeyPad)
    ensures
        key_bits(pad) == Seq::new(NUM_KEYS as nat, |k: int| false),
{
    KeyPad { bits: bitvec::array::BitArray::ZERO }
}

/// Indexing a `bitvec::slice::BitSlice` by `usize`: the bit at `index`. The
/// call panics on an index past the end, which `requires` leaves out.
#[verifier::external_body]
pub(crate) fn keys_get(pad: &KeyPad, index: usize) -> (bit: bool)
    requires
        index < key_bits(*pad).len(),
    ensures
        bit == key_bits(*pad)[index as int],
{
    pad.bits[index]
}

/// `bitvec::slice::BitSlice::set`: the bit at `index` takes the given value
/// and no other bit changes. The call panics on an index past the end, which
/// `requires` leaves out.
#[verifier::external_body]
pub(crate) fn keys_set(pad: &mut KeyPad, index: usize, value: bool)
    requires
        index < key_bits(*old(pad)).len(),
    ensures
        key_bits(*final(pad)) == key_bits(*old(pad)).update(index as int, value),
{
    pad.bits.set(index, value);
}

} // verus!
