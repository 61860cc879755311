//! The 64x32 monochrome frame, kept as a packed bit array of the `bitvec`
//! crate. Everything in this file is trusted: Verus does not look inside the
//! bit array, and believes what is stated here of the calls into it.
use vstd::prelude::*;
use crate::semantics::{msb_bit, DISPLAY_SIZE};

verus! {

/// The frame's bit array. Pixel `y * 64 + x` is the bit at that index.
///
/// The array is opaque to Verus, which does not take the bounds of
/// `bitvec::array::BitArray`: what it holds is [`frame_bits`].
#[verifier::external_body]
pub struct FrameBuffer {
    bits: bitvec::array::BitArray<[u32; 64], bitvec::order::Lsb0>,
}

/// The bits that a frame holds, by index.
pub uninterp spec fn frame_bits(frame: FrameBuffer) -> Seq<bool>;

/// `bitvec::array::BitArray::ZERO`: an array with every bit clear. Sixty-four
/// `u32` elements hold 2048 bits.
#[verifier::external_body]
pub(crate) fn frame_blank() -> (frame: FrameBuffer)
    ensures
        frame_bits(frame) == Seq::new(DISPLAY_SIZE as nat, |p: int| false),
{
    FrameBuffer { bits: bitvec::array::BitArray::ZERO }
}

/// `bitvec::slice::BitSlice::fill`: every bit takes the given value; the
/// number of bits stays.
#[verifier::external_body]
pub(crate) fn frame_fill(frame: &mut FrameBuffer, value: bool)
    ensures
        frame_bits(*final(frame)) == Seq::new(frame_bits(*old(frame)).len(), |p: int| value),
{
    frame.bits.fill(value);
}

/// Indexing a `bitvec::slice::BitSlice` by `usize`: the bit at `index`. The
/// call panics on an index past the end, which `requires` leaves out.
#[verifier::external_body]
pub(crate) fn frame_get(frame: &FrameBuffer, index: usize) -> (bit: bool)
    requires
        index < frame_bits(*frame).len(),
    ensures
        bit == frame_bits(*frame)[index as int],
{
    frame.bits[index]
}

/// `bitvec::slice::BitSlice::set`: the bit at `index` takes the given value
/// and no other bit changes. The call panics on an index past the end, which
/// `requires` leaves out.
#[verifier::external_body]
pub(crate) fn frame_set(frame: &mut FrameBuffer, index: usize, value: bool)
    requires
        index < frame_bits(*old(frame)).len(),
    ensures
        frame_bits(*final(frame)) == frame_bits(*old(frame)).update(index as int, value),
{
    frame.bits.set(index, value);
}

/// `bitvec::view::BitView::view_bits` with the order `Msb0`, indexed: bit
/// `dx` of the byte, where index 0 is the most significant bit. The index must
/// be under 8, the length of the view.
#[verifier::external_body]
pub(crate) fn byte_bit(byte: u8, dx: usize) -> (bit: bool)
    requires
        dx < 8,
    ensures
        bit == msb_bit(byte, dx as int),
{
    bitvec::view::BitView::view_bits::<bitvec::order::Msb0>(&byte)[dx]
}

} // verus!
