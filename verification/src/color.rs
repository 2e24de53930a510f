//! The packed 4-byte color value.
//!
//! A [`Color`] is four channel bytes in the declared order R, G, B, A.
//! Equality, ordering and hashing are byte-wise in that order, and a value
//! can be built from a 32-bit word by taking its bytes least-significant
//! first, so a hex literal `0xAABBGGRR` names the channels directly.

use vstd::prelude::*;

verus! {

/// A packed RGBA color: one byte per channel, in the order R, G, B, A.
#[derive(Clone, Copy, Debug, PartialEq, Eq, Structural, PartialOrd, Ord, Hash)]
pub struct Color {
    pub r: u8,
    pub g: u8,
    pub b: u8,
    pub a: u8,
}

impl View for Color {
    type V = Seq<u8>;

    /// The channel bytes in declared order R, G, B, A.
    open spec fn view(&self) -> Seq<u8> {
        seq![self.r, self.g, self.b, self.a]
    }
}

/// The four bytes of a 32-bit word, least-significant first.
pub open spec fn le_bytes_of(hex: u32) -> Seq<u8> {
    seq![
        (hex & 0xff) as u8,
        ((hex >> 8) & 0xff) as u8,
        ((hex >> 16) & 0xff) as u8,
        ((hex >> 24) & 0xff) as u8,
    ]
}

impl Color {
    /// Decomposes a 32-bit word into the four channel bytes,
    /// least-significant byte first: R, then G, B, A.
    pub fn new(hex: u32) -> (c: Color)
        ensures
            c@ == le_bytes_of(hex),
    {
        let c = Color {
            r: (hex & 0xff) as u8,
            g: ((hex >> 8) & 0xff) as u8,
            b: ((hex >> 16) & 0xff) as u8,
            a: ((hex >> 24) & 0xff) as u8,
        };
        proof {
            assert(c@ =~= le_bytes_of(hex));
        }
        c
    }

    /// The channel bytes as an array, in declared order R, G, B, A.
    pub fn to_bytes(self) -> (bytes: [u8; 4])
        ensures
            bytes@ == self@,
    {
        let bytes = [self.r, self.g, self.b, self.a];
        proof {
            assert(bytes@ =~= self@);
        }
        bytes
    }
}

/// Distinct 32-bit words decompose to distinct byte sequences, so the four
/// channel bytes carry the whole word: a color and its source word are
/// interchangeable representations.
pub proof fn lemma_le_bytes_of_injective(x: u32, y: u32)
    requires
        le_bytes_of(x) == le_bytes_of(y),
    ensures
        x == y,
{
    assert(le_bytes_of(x)[0] == le_bytes_of(y)[0]);
    assert(le_bytes_of(x)[1] == le_bytes_of(y)[1]);
    assert(le_bytes_of(x)[2] == le_bytes_of(y)[2]);
    assert(le_bytes_of(x)[3] == le_bytes_of(y)[3]);
    assert((
        (x & 0xff) as u8 == (y & 0xff) as u8
        && ((x >> 8) & 0xff) as u8 == ((y >> 8) & 0xff) as u8
        && ((x >> 16) & 0xff) as u8 == ((y >> 16) & 0xff) as u8
        && ((x >> 24) & 0xff) as u8 == ((y >> 24) & 0xff) as u8
    ) ==> x == y) by (bit_vector);
}

impl Default for Color {
    /// The default color is opaque black: zero R, G, B and full alpha.
    fn default() -> (c: Self)
        ensures
            c@ =~= seq![0u8, 0u8, 0u8, 255u8],
    {
        Color { r: 0, g: 0, b: 0, a: 255 }
    }
}

} // verus!
