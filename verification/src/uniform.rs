//! The uniform block: elapsed time and surface size, and its layout in a GPU
//! buffer.

use vstd::prelude::*;

verus! {

/// Number of bytes that a [`Uniform`] occupies in a buffer.
pub const UNIFORM_SIZE: usize = 16;

/// Width and height of the drawing surface, in physical pixels.
#[derive(Clone, Copy, Debug, PartialEq, Eq, Structural)]
pub struct Size {
    pub width: u32,
    pub height: u32,
}

/// What the shader is told each frame.
#[derive(Clone, Copy, Debug, PartialEq, Eq, Structural)]
pub struct Uniform {
    /// Seconds since start-up: the bit pattern of an IEEE-754 single.
    pub secs: u32,
    /// Size of the surface that the frame is drawn to.
    pub size: Size,
}

/// The four bytes of a 32-bit word, least significant first.
pub open spec fn word_bytes(x: u32) -> Seq<u8> {
    seq![
        (x % 256) as u8,
        (x / 256 % 256) as u8,
        (x / 65536 % 256) as u8,
        (x / 16777216) as u8,
    ]
}

/// The number that four bytes spell, least significant first.
pub open spec fn word_value(b: Seq<u8>) -> int
    recommends
        b.len() == 4,
{
    b[0] + 256 * b[1] + 65536 * b[2] + 16777216 * b[3]
}

/// Splits a word into its bytes, least significant first.
pub fn word_to_bytes(x: u32) -> (out: [u8; 4])
    ensures
        out@ == word_bytes(x),
{
    let out: [u8; 4] = [
        (x % 256) as u8,
        (x / 256 % 256) as u8,
        (x / 65536 % 256) as u8,
        (x / 16777216) as u8,
    ];
    assert(out@ =~= word_bytes(x));
    out
}

impl Uniform {
    /// The block as the buffer holds it: the seconds at offset 0, four zero
    /// bytes of padding, then width and height from offset 8, since the size
    /// is aligned to eight bytes. Every word is little-endian.
    pub open spec fn layout(self) -> Seq<u8> {
        word_bytes(self.secs) + seq![0u8, 0u8, 0u8, 0u8] + word_bytes(self.size.width)
            + word_bytes(self.size.height)
    }

    /// A uniform block for the given time and surface size.
    pub fn new(secs: u32, size: Size) -> (u: Uniform)
        ensures
            u == (Uniform { secs, size }),
    {
        Uniform { secs, size }
    }

    /// The bytes to copy into the uniform buffer.
    pub fn to_bytes(&self) -> (out: [u8; 16])
        ensures
            out@ == self.layout(),
    {
        let s: [u8; 4] = word_to_bytes(self.secs);
        let w: [u8; 4] = word_to_bytes(self.size.width);
        let h: [u8; 4] = word_to_bytes(self.size.height);
        let out: [u8; 16] = [
            s[0], s[1], s[2], s[3],
            0, 0, 0, 0,
            w[0], w[1], w[2], w[3],
            h[0], h[1], h[2], h[3],
        ];
        assert(out@ =~= self.layout());
        out
    }
}

/// Reading a word back from its bytes gives the word.
pub proof fn lemma_word_round_trip(x: u32)
    ensures
        word_bytes(x).len() == 4,
        word_value(word_bytes(x)) == x,
{
}

/// The layout is sixteen bytes long, and each field can be read back from
/// its offset: the seconds from 0, the width from 8, the height from 12. The
/// four bytes between are zero.
pub proof fn lemma_layout_fields(u: Uniform)
    ensures
        u.layout().len() == UNIFORM_SIZE,
        word_value(u.layout().subrange(0, 4)) == u.secs,
        u.layout().subrange(4, 8) == seq![0u8, 0u8, 0u8, 0u8],
        word_value(u.layout().subrange(8, 12)) == u.size.width,
        word_value(u.layout().subrange(12, 16)) == u.size.height,
{
    lemma_word_round_trip(u.secs);
    lemma_word_round_trip(u.size.width);
    lemma_word_round_trip(u.size.height);
    assert(u.layout().subrange(0, 4) =~= word_bytes(u.secs));
    assert(u.layout().subrange(4, 8) =~= seq![0u8, 0u8, 0u8, 0u8]);
    assert(u.layout().subrange(8, 12) =~= word_bytes(u.size.width));
    assert(u.layout().subrange(12, 16) =~= word_bytes(u.size.height));
}

/// Two blocks with the same bytes are the same block.
pub proof fn lemma_layout_injective(a: Uniform, b: Uniform)
    requires
        a.layout() == b.layout(),
    ensures
        a == b,
{
    lemma_layout_fields(a);
    lemma_layout_fields(b);
}

} // verus!
