//! What a memory-mapped location stores, as a raw bit pattern.
//!
//! Hardware is read and written in units of one, two or four bytes. A value
//! that can live at a location says how wide it is and converts to and from
//! the bit pattern of that width.

use vstd::prelude::*;

verus! {

/// The width of one access to a location.
#[derive(Debug, Clone, Copy, PartialEq, Eq, Structural)]
pub enum Width {
    /// One byte.
    Byte,
    /// Two bytes.
    Half,
    /// Four bytes.
    Word,
}

impl Width {
    /// The number of bytes that one access moves.
    pub open spec fn byte_count(self) -> nat {
        match self {
            Width::Byte => 1,
            Width::Half => 2,
            Width::Word => 4,
        }
    }

    /// The number of bytes that one access moves.
    pub fn bytes(self) -> (n: usize)
        ensures
            n == self.byte_count(),
    {
        match self {
            Width::Byte => 1,
            Width::Half => 2,
            Width::Word => 4,
        }
    }
}

/// The low bits of `bits` that an access of `width` carries, zero-extended.
pub open spec fn low_bits(bits: u32, width: Width) -> u32 {
    match width {
        Width::Byte => (bits as u8) as u32,
        Width::Half => (bits as u16) as u32,
        Width::Word => bits,
    }
}

/// A value that a memory-mapped location can store.
pub trait Register: Sized {
    /// The width of the value in memory.
    spec fn width() -> Width;

    /// The value's bit pattern, zero-extended to 32 bits.
    spec fn bits(self) -> u32;

    /// The width of the value in memory.
    fn access_width() -> (width: Width)
        ensures
            width == Self::width(),
    ;

    /// The bit pattern to write for this value. It has no bit above the width.
    fn to_bits(self) -> (bits: u32)
        ensures
            bits == self.bits(),
            low_bits(bits, Self::width()) == bits,
    ;

    /// The value that the bit pattern `bits` stands for. Bits above the width
    /// are ignored, and every pattern of the width is a value.
    fn from_bits(bits: u32) -> (out: Self)
        ensures
            out.bits() == low_bits(bits, Self::width()),
    ;

    /// No value has a bit above its width.
    proof fn lemma_bits_fit(self)
        ensures
            low_bits(self.bits(), Self::width()) == self.bits(),
    ;

    /// A value is determined by its bit pattern.
    proof fn lemma_bits_determine(self, other: Self)
        ensures
            self.bits() == other.bits() <==> self == other,
    ;
}

impl Register for u8 {
    open spec fn width() -> Width {
        Width::Byte
    }

    open spec fn bits(self) -> u32 {
        self as u32
    }

    fn access_width() -> (width: Width) {
        Width::Byte
    }

    fn to_bits(self) -> (bits: u32) {
        self as u32
    }

    fn from_bits(bits: u32) -> (out: Self) {
        bits as u8
    }

    proof fn lemma_bits_fit(self) {
    }

    proof fn lemma_bits_determine(self, other: Self) {
    }
}

impl Register for u16 {
    open spec fn width() -> Width {
        Width::Half
    }

    open spec fn bits(self) -> u32 {
        self as u32
    }

    fn access_width() -> (width: Width) {
        Width::Half
    }

    fn to_bits(self) -> (bits: u32) {
        self as u32
    }

    fn from_bits(bits: u32) -> (out: Self) {
        bits as u16
    }

    proof fn lemma_bits_fit(self) {
    }

    proof fn lemma_bits_determine(self, other: Self) {
    }
}

impl Register for u32 {
    open spec fn width() -> Width {
        Width::Word
    }

    open spec fn bits(self) -> u32 {
        self
    }

    fn access_width() -> (width: Width) {
        Width::Word
    }

    fn to_bits(self) -> (bits: u32) {
        self
    }

    fn from_bits(bits: u32) -> (out: Self) {
        bits
    }

    proof fn lemma_bits_fit(self) {
    }

    proof fn lemma_bits_determine(self, other: Self) {
    }
}

impl Register for i16 {
    open spec fn width() -> Width {
        Width::Half
    }

    open spec fn bits(self) -> u32 {
        (self as u16) as u32
    }

    fn access_width() -> (width: Width) {
        Width::Half
    }

    fn to_bits(self) -> (bits: u32) {
        (self as u16) as u32
    }

    fn from_bits(bits: u32) -> (out: Self) {
        let half: u16 = bits as u16;
        assert((half as i16) as u16 == half) by (bit_vector);
        half as i16
    }

    proof fn lemma_bits_fit(self) {
    }

    proof fn lemma_bits_determine(self, other: Self) {
        assert((self as u16) as u32 == (other as u16) as u32 ==> self == other) by (bit_vector);
    }
}

impl Register for i32 {
    open spec fn width() -> Width {
        Width::Word
    }

    open spec fn bits(self) -> u32 {
        self as u32
    }

    fn access_width() -> (width: Width) {
        Width::Word
    }

    fn to_bits(self) -> (bits: u32) {
        self as u32
    }

    fn from_bits(bits: u32) -> (out: Self) {
        assert((bits as i32) as u32 == bits) by (bit_vector);
        bits as i32
    }

    proof fn lemma_bits_fit(self) {
    }

    proof fn lemma_bits_determine(self, other: Self) {
        assert(self as u32 == other as u32 ==> self == other) by (bit_vector);
    }
}

/// Writing a value and reading the pattern back gives the value: whatever is
/// decoded from the pattern of `value` is `value`.
pub proof fn lemma_bits_round_trip<T: Register>(value: T, back: T)
    requires
        back.bits() == low_bits(value.bits(), T::width()),
    ensures
        back == value,
{
    value.lemma_bits_fit();
    back.lemma_bits_determine(value);
}

} // verus!
