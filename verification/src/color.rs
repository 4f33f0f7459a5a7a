//! Pixel values of the frame buffers: black/white and 2-bit grayscale.
use vstd::prelude::*;

verus! {

/// The state of a pixel in a black/white frame buffer.
///
/// A set bit in the buffer is a white pixel, a cleared bit a black one.
#[derive(Clone, Copy, PartialEq, Eq, Debug, Structural)]
pub enum Color {
    /// Black pixel (bit cleared)
    Black,
    /// White pixel (bit set)
    White,
}

impl Color {
    /// A whole byte of pixels of this color.
    pub open spec fn spec_byte_value(self) -> u8 {
        match self {
            Color::White => 0xFF,
            Color::Black => 0x00,
        }
    }

    /// The other of the two colors.
    pub open spec fn spec_inverse(self) -> Color {
        match self {
            Color::White => Color::Black,
            Color::Black => Color::White,
        }
    }

    /// Gets a full byte of pixels of this color.
    pub fn get_byte_value(self) -> (byte: u8)
        ensures
            byte == self.spec_byte_value(),
    {
        match self {
            Color::White => 0xFF,
            Color::Black => 0x00,
        }
    }

    /// Returns the inverse of this color (black becomes white and white black).
    pub fn inverse(self) -> (inverse: Color)
        ensures
            inverse == self.spec_inverse(),
    {
        match self {
            Color::White => Color::Black,
            Color::Black => Color::White,
        }
    }
}

/// Inverting a color twice gives it back, and the byte of the inverse is the
/// bitwise complement of the byte of the color.
pub proof fn lemma_inverse_complements_byte(color: Color)
    ensures
        color.spec_inverse().spec_inverse() == color,
        color.spec_inverse().spec_byte_value() == !color.spec_byte_value(),
        color.spec_inverse() != color,
{
    assert(!0xFFu8 == 0x00u8) by (bit_vector);
    assert(!0x00u8 == 0xFFu8) by (bit_vector);
}

/// A 2-bit grayscale level: 0 is black, 3 is white.
#[derive(Clone, Copy, PartialEq, Eq, Debug)]
pub struct GrayLevel {
    luma: u8,
}

impl GrayLevel {
    #[verifier::type_invariant]
    spec fn level_in_range(self) -> bool {
        self.luma < 4
    }

    /// The luma value of the level, from 0 to 3.
    pub closed spec fn luma(self) -> u8 {
        self.luma
    }

    /// The level with the given luma; values above 3 keep only their two low bits.
    pub fn new(luma: u8) -> (level: GrayLevel)
        ensures
            level.luma() == luma % 4,
    {
        assert(luma & 0x3 == luma % 4) by (bit_vector);
        GrayLevel { luma: luma & 0x3 }
    }

    /// Black (luma 0).
    pub fn black() -> (level: GrayLevel)
        ensures
            level.luma() == 0,
    {
        GrayLevel { luma: 0 }
    }

    /// White (luma 3).
    pub fn white() -> (level: GrayLevel)
        ensures
            level.luma() == 3,
    {
        GrayLevel { luma: 3 }
    }

    /// The storage value of the level, the luma from 0 to 3.
    pub fn into_storage(self) -> (storage: u8)
        ensures
            storage == self.luma(),
            storage < 4,
    {
        proof {
            use_type_invariant(&self);
        }
        self.luma
    }
}

} // verus!
