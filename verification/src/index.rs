//! Index layouts, and the bits by which the hardware knows each.

use vstd::prelude::*;
use crate::vertex::{lemma_vtype_fields, Vertex, VertexFormat, VERTEX_BITS};

verus! {

/// The bits of a format word that describe the index: bits 11 and 12.
pub const INDEX_BITS: u32 = 0x1800;

/// How one index is stored.
#[derive(Clone, Copy, Debug, PartialEq, Eq, Structural)]
pub enum IndexFormat {
    /// One byte per index.
    U8,
    /// Two bytes per index.
    U16,
}

/// An element layout that a draw can read as indices.
pub trait IndexItem {
    /// The bits of this layout in the format word.
    spec fn spec_vtype(&self) -> u32;

    /// The bits of this layout, as a draw adds them to the format word.
    fn vtype(&self) -> (bits: u32)
        ensures
            bits == self.spec_vtype(),
    ;
}

impl IndexItem for IndexFormat {
    open spec fn spec_vtype(&self) -> u32 {
        match self {
            IndexFormat::U8 => 0x0800,
            IndexFormat::U16 => 0x1000,
        }
    }

    fn vtype(&self) -> (bits: u32) {
        match self {
            IndexFormat::U8 => 0x0800,
            IndexFormat::U16 => 0x1000,
        }
    }
}

/// The format word of an indexed draw tells both layouts apart: the bits of
/// the index and the bits of the vertex do not overlap, so each can be read
/// back from the word that holds both.
pub proof fn lemma_indexed_word_keeps_both(vertex: VertexFormat, index: IndexFormat)
    ensures
        (vertex.spec_vtype() | index.spec_vtype()) & INDEX_BITS == index.spec_vtype(),
        (vertex.spec_vtype() | index.spec_vtype()) & VERTEX_BITS == vertex.spec_vtype(),
{
    lemma_vtype_fields(
        vertex.texture.spec_code(),
        vertex.color.spec_code(),
        vertex.normal.spec_code(),
        vertex.position.spec_code(),
        vertex.transform.spec_code(),
    );
    let v = vertex.spec_vtype();
    let i = index.spec_vtype();
    assert((v | i) & 0x1800u32 == i && (v | i) & 0x0080_01ffu32 == v) by (bit_vector)
        requires
            v & !0x0080_01ffu32 == 0,
            i == 0x0800u32 || i == 0x1000u32,
    ;
}

} // verus!
