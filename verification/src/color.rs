//! Colours, and the packed form in which the hardware takes them.

use vstd::prelude::*;

verus! {

/// A colour of four 8-bit channels.
#[derive(Clone, Copy, Debug, PartialEq, Eq, Structural)]
pub struct Color32 {
    pub r: u8,
    pub g: u8,
    pub b: u8,
    pub a: u8,
}

/// The word that holds the four channels in the order of the hardware: alpha
/// in the highest byte, then blue, then green, and red in the lowest.
pub open spec fn pack_abgr(r: u8, g: u8, b: u8, a: u8) -> u32 {
    (a as u32) << 24 | (b as u32) << 16 | (g as u32) << 8 | (r as u32)
}

impl Color32 {
    /// A colour from its four channels.
    pub fn new(r: u8, g: u8, b: u8, a: u8) -> (c: Color32)
        ensures
            c == (Color32 { r, g, b, a }),
    {
        Color32 { r, g, b, a }
    }

    /// The packed word of this colour.
    pub open spec fn abgr(self) -> u32 {
        pack_abgr(self.r, self.g, self.b, self.a)
    }

    /// The colour that a packed word holds.
    pub open spec fn unpack(word: u32) -> Color32 {
        Color32 {
            r: (word & 0xff) as u8,
            g: ((word >> 8) & 0xff) as u8,
            b: ((word >> 16) & 0xff) as u8,
            a: ((word >> 24) & 0xff) as u8,
        }
    }

    /// Packs this colour into the word that clear and colour operations take.
    pub fn as_abgr(&self) -> (word: u32)
        ensures
            word == self.abgr(),
            Color32::unpack(word) == *self,
    {
        proof {
            lemma_pack_then_unpack(*self);
        }
        (self.a as u32) << 24 | (self.b as u32) << 16 | (self.g as u32) << 8 | (self.r as u32)
    }

    /// Reads a colour back from its packed word.
    pub fn from_abgr(word: u32) -> (c: Color32)
        ensures
            c == Color32::unpack(word),
            c.abgr() == word,
    {
        proof {
            lemma_unpack_then_pack(word);
        }
        Color32 {
            r: (word & 0xff) as u8,
            g: ((word >> 8) & 0xff) as u8,
            b: ((word >> 16) & 0xff) as u8,
            a: ((word >> 24) & 0xff) as u8,
        }
    }
}

/// Packing loses nothing: unpacking the packed word of a colour gives the
/// colour back, channel by channel.
pub proof fn lemma_pack_then_unpack(c: Color32)
    ensures
        Color32::unpack(c.abgr()) == c,
{
    let (r, g, b, a) = (c.r, c.g, c.b, c.a);
    let word = pack_abgr(r, g, b, a);
    assert(word & 0xff == r as u32 && (word >> 8) & 0xff == g as u32 && (word >> 16) & 0xff
        == b as u32 && (word >> 24) & 0xff == a as u32) by (bit_vector)
        requires
            word == (a as u32) << 24 | (b as u32) << 16 | (g as u32) << 8 | (r as u32),
    ;
}

/// Every word is the packed form of exactly the colour it unpacks to.
pub proof fn lemma_unpack_then_pack(word: u32)
    ensures
        Color32::unpack(word).abgr() == word,
{
    let r = (word & 0xff) as u8;
    let g = ((word >> 8) & 0xff) as u8;
    let b = ((word >> 16) & 0xff) as u8;
    let a = ((word >> 24) & 0xff) as u8;
    assert((a as u32) << 24 | (b as u32) << 16 | (g as u32) << 8 | (r as u32) == word)
        by (bit_vector)
        requires
            r == (word & 0xff) as u8,
            g == ((word >> 8) & 0xff) as u8,
            b == ((word >> 16) & 0xff) as u8,
            a == ((word >> 24) & 0xff) as u8,
    ;
}

/// Two colours with the same packed word are the same colour.
pub proof fn lemma_pack_injective(c: Color32, d: Color32)
    requires
        c.abgr() == d.abgr(),
    ensures
        c == d,
{
    lemma_pack_then_unpack(c);
    lemma_pack_then_unpack(d);
}

} // verus!
