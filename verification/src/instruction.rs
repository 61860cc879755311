//! The instruction decoder.
//!
//! A CHIP-8 instruction is one 16-bit word, stored big-endian in memory and
//! read here as four 4-bit nibbles:
//!
//! ```text
//!   <-- msb                                                     lsb -->
//!                    |---    x    ---|---    y    ---|
//!    +---------------+---------------+---------------+---------------+
//!    |  bits 12-15   |   bits 8-11   |   bits 4-7    |   bits 0-3    |
//!    +---------------+---------------+---------------+---------------+
//!    |---    o    ---|---                   nnn                   ---|
//!                                    |---           nn            ---|
//!                                                    |---    n    ---|
//! ```
//!
//! Every 16-bit value decodes; whether it names an instruction is decided
//! when it is executed.
use vstd::prelude::*;
use vstd::std_specs::convert::FromSpecImpl;

verus! {

/// The opcode class of the word `w`: bits 12 to 15.
pub open spec fn word_o(w: u16) -> u8 {
    (w / 0x1000) as u8
}

/// The first register index of the word `w`: bits 8 to 11.
pub open spec fn word_x(w: u16) -> u8 {
    ((w / 0x100) % 0x10) as u8
}

/// The second register index of the word `w`: bits 4 to 7.
pub open spec fn word_y(w: u16) -> u8 {
    ((w / 0x10) % 0x10) as u8
}

/// The 4-bit immediate of the word `w`: bits 0 to 3.
pub open spec fn word_n(w: u16) -> u8 {
    (w % 0x10) as u8
}

/// The 8-bit immediate of the word `w`: bits 0 to 7.
pub open spec fn word_nn(w: u16) -> u8 {
    (w % 0x100) as u8
}

/// The 12-bit address of the word `w`: bits 0 to 11.
pub open spec fn word_nnn(w: u16) -> u16 {
    w % 0x1000
}

/// The word whose low byte is `lo` and whose high byte is `hi`.
pub open spec fn word_of_bytes(lo: u8, hi: u8) -> u16 {
    (hi * 0x100 + lo) as u16
}

/// One instruction word. Its view is the word itself.
#[derive(Clone, Copy, Debug)]
pub struct Instruction {
    word: u16,
}

impl View for Instruction {
    type V = u16;

    closed spec fn view(&self) -> u16 {
        self.word
    }
}

impl Instruction {
    /// Builds the instruction from its two bytes, low byte first.
    pub fn from_bytes(bytes: [u8; 2]) -> (instr: Self)
        ensures
            instr@ == word_of_bytes(bytes[0], bytes[1]),
    {
        let lo: u8 = bytes[0];
        let hi: u8 = bytes[1];
        let word: u16 = ((hi as u16) << 8) | (lo as u16);
        assert(((hi as u16) << 8) | (lo as u16) == (hi * 0x100 + lo) as u16) by (bit_vector);
        Instruction { word }
    }

    /// The two bytes of the instruction, low byte first.
    pub fn into_bytes(self) -> (bytes: [u8; 2])
        ensures
            self@ == word_of_bytes(bytes[0], bytes[1]),
    {
        let w: u16 = self.word;
        let lo: u8 = (w & 0xFF) as u8;
        let hi: u8 = (w >> 8) as u8;
        assert(w == ((((w >> 8) as u8) * 0x100 + ((w & 0xFF) as u8)) as u16)) by (bit_vector);
        [lo, hi]
    }

    /// `o`: the opcode class, the uppermost 4 bits.
    pub fn get_o(&self) -> (o: u8)
        ensures
            o == word_o(self@),
            o < 0x10,
    {
        let w: u16 = self.word;
        assert((w >> 12) == w / 0x1000 && (w >> 12) < 0x10) by (bit_vector);
        (w >> 12) as u8
    }

    /// `nnn`: a memory address, the lowest 12 bits.
    pub fn get_nnn(&self) -> (nnn: u16)
        ensures
            nnn == word_nnn(self@),
            nnn < 0x1000,
    {
        let w: u16 = self.word;
        assert((w & 0x0FFF) == w % 0x1000) by (bit_vector);
        w & 0x0FFF
    }

    /// `nn`: the lowest 8 bits.
    pub fn get_nn(&self) -> (nn: u8)
        ensures
            nn == word_nn(self@),
    {
        let w: u16 = self.word;
        assert((w & 0x00FF) == w % 0x100) by (bit_vector);
        (w & 0x00FF) as u8
    }

    /// `n`: the lowest 4 bits.
    pub fn get_n(&self) -> (n: u8)
        ensures
            n == word_n(self@),
            n < 0x10,
    {
        let w: u16 = self.word;
        assert((w & 0x000F) == w % 0x10) by (bit_vector);
        (w & 0x000F) as u8
    }

    /// `x`: the lower 4 bits of the high byte.
    pub fn get_x(&self) -> (x: u8)
        ensures
            x == word_x(self@),
            x < 0x10,
    {
        let w: u16 = self.word;
        assert(((w >> 8) & 0x000F) == (w / 0x100) % 0x10) by (bit_vector);
        ((w >> 8) & 0x000F) as u8
    }

    /// `y`: the upper 4 bits of the low byte.
    pub fn get_y(&self) -> (y: u8)
        ensures
            y == word_y(self@),
            y < 0x10,
    {
        let w: u16 = self.word;
        assert(((w >> 4) & 0x000F) == (w / 0x10) % 0x10) by (bit_vector);
        ((w >> 4) & 0x000F) as u8
    }
}

impl From<u16> for Instruction {
    fn from(word: u16) -> (instr: Instruction)
        ensures
            instr@ == word,
    {
        Instruction { word }
    }
}

impl FromSpecImpl<u16> for Instruction {
    open spec fn obeys_from_spec() -> bool {
        true
    }

    closed spec fn from_spec(word: u16) -> Instruction {
        Instruction { word }
    }
}

impl From<Instruction> for u16 {
    fn from(instr: Instruction) -> (word: u16)
        ensures
            word == instr@,
    {
        instr.word
    }
}

impl FromSpecImpl<Instruction> for u16 {
    open spec fn obeys_from_spec() -> bool {
        true
    }

    open spec fn from_spec(instr: Instruction) -> u16 {
        instr@
    }
}

/// The nibbles and the composed operands of a word fit together: `nn` is `y`
/// and `n` side by side, `nnn` is `x`, `y` and `n`, and the word is `o` and
/// `nnn`.
pub proof fn lemma_operands_compose(w: u16)
    ensures
        word_nn(w) == word_y(w) * 0x10 + word_n(w),
        word_nnn(w) == word_x(w) * 0x100 + word_y(w) * 0x10 + word_n(w),
        w == word_o(w) * 0x1000 + word_nnn(w),
        word_o(w) < 0x10,
        word_x(w) < 0x10,
        word_y(w) < 0x10,
        word_n(w) < 0x10,
        word_nnn(w) < 0x1000,
{
}

} // verus!
