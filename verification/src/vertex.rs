//! Vertex layouts, and the format word by which the hardware knows each.
//!
//! A layout is chosen component by component from what the hardware can read.
//! Its format word is computed here and nowhere else, so a buffer can only
//! advertise a word that stands for a layout.

use vstd::prelude::*;

verus! {

/// How texture coordinates are stored in a vertex.
#[derive(Clone, Copy, Debug, PartialEq, Eq, Structural)]
pub enum TextureFormat {
    /// No texture coordinates.
    Absent,
    /// Two 8-bit coordinates.
    Bits8,
    /// Two 16-bit coordinates.
    Bits16,
    /// Two 32-bit floats.
    Float32,
}

/// How the colour is stored in a vertex.
#[derive(Clone, Copy, Debug, PartialEq, Eq, Structural)]
pub enum ColorFormat {
    /// No colour.
    Absent,
    /// 16 bits, 5:6:5.
    Rgb5650,
    /// 16 bits, 5:5:5:1.
    Rgba5551,
    /// 16 bits, 4:4:4:4.
    Rgba4444,
    /// 32 bits, 8:8:8:8.
    Rgba8888,
}

/// How the normal is stored in a vertex.
#[derive(Clone, Copy, Debug, PartialEq, Eq, Structural)]
pub enum NormalFormat {
    /// No normal.
    Absent,
    /// Three 8-bit components.
    Bits8,
    /// Three 16-bit components.
    Bits16,
    /// Three 32-bit floats.
    Float32,
}

/// How the position is stored in a vertex. Every vertex has one.
#[derive(Clone, Copy, Debug, PartialEq, Eq, Structural)]
pub enum PositionFormat {
    /// Three 8-bit components.
    Bits8,
    /// Three 16-bit components.
    Bits16,
    /// Three 32-bit floats.
    Float32,
}

/// What happens to a position on its way to the rasteriser.
#[derive(Clone, Copy, Debug, PartialEq, Eq, Structural)]
pub enum Transform {
    /// The position is transformed first.
    ThreeD,
    /// The position is passed on as it is.
    TwoD,
}

/// A vertex layout. In memory the components follow each other in the order
/// of the fields: texture coordinates, colour, normal, position.
#[derive(Clone, Copy, Debug, PartialEq, Eq, Structural)]
pub struct VertexFormat {
    pub texture: TextureFormat,
    pub color: ColorFormat,
    pub normal: NormalFormat,
    pub position: PositionFormat,
    pub transform: Transform,
}

/// The bits of a format word that describe the vertex, as opposed to the
/// index: texture in bits 0 and 1, colour in bits 2 to 4, normal in bits 5 and
/// 6, position in bits 7 and 8, the transform in bit 23.
pub const VERTEX_BITS: u32 = 0x0080_01ff;

/// An element layout that a draw can read as vertices.
pub trait Vertex {
    /// The format word of this layout.
    spec fn spec_vtype(&self) -> u32;

    /// The format word of this layout, as a draw hands it to the hardware.
    fn vtype(&self) -> (bits: u32)
        ensures
            bits == self.spec_vtype(),
    ;
}

impl TextureFormat {
    /// The number of this choice in the format word.
    pub open spec fn spec_code(self) -> u32 {
        match self {
            TextureFormat::Absent => 0,
            TextureFormat::Bits8 => 1,
            TextureFormat::Bits16 => 2,
            TextureFormat::Float32 => 3,
        }
    }

    fn code(self) -> (c: u32)
        ensures
            c == self.spec_code(),
    {
        match self {
            TextureFormat::Absent => 0,
            TextureFormat::Bits8 => 1,
            TextureFormat::Bits16 => 2,
            TextureFormat::Float32 => 3,
        }
    }
}

impl ColorFormat {
    /// The number of this choice in the format word.
    pub open spec fn spec_code(self) -> u32 {
        match self {
            ColorFormat::Absent => 0,
            ColorFormat::Rgb5650 => 4,
            ColorFormat::Rgba5551 => 5,
            ColorFormat::Rgba4444 => 6,
            ColorFormat::Rgba8888 => 7,
        }
    }

    fn code(self) -> (c: u32)
        ensures
            c == self.spec_code(),
    {
        match self {
            ColorFormat::Absent => 0,
            ColorFormat::Rgb5650 => 4,
            ColorFormat::Rgba5551 => 5,
            ColorFormat::Rgba4444 => 6,
            ColorFormat::Rgba8888 => 7,
        }
    }
}

impl NormalFormat {
    /// The number of this choice in the format word.
    pub open spec fn spec_code(self) -> u32 {
        match self {
            NormalFormat::Absent => 0,
            NormalFormat::Bits8 => 1,
            NormalFormat::Bits16 => 2,
            NormalFormat::Float32 => 3,
        }
    }

    fn code(self) -> (c: u32)
        ensures
            c == self.spec_code(),
    {
        match self {
            NormalFormat::Absent => 0,
            NormalFormat::Bits8 => 1,
            NormalFormat::Bits16 => 2,
            NormalFormat::Float32 => 3,
        }
    }
}

impl PositionFormat {
    /// The number of this choice in the format word.
    pub open spec fn spec_code(self) -> u32 {
        match self {
            PositionFormat::Bits8 => 1,
            PositionFormat::Bits16 => 2,
            PositionFormat::Float32 => 3,
        }
    }

    fn code(self) -> (c: u32)
        ensures
            c == self.spec_code(),
    {
        match self {
            PositionFormat::Bits8 => 1,
            PositionFormat::Bits16 => 2,
            PositionFormat::Float32 => 3,
        }
    }
}

impl Transform {
    /// The number of this choice in the format word.
    pub open spec fn spec_code(self) -> u32 {
        match self {
            Transform::ThreeD => 0,
            Transform::TwoD => 1,
        }
    }

    fn code(self) -> (c: u32)
        ensures
            c == self.spec_code(),
    {
        match self {
            Transform::ThreeD => 0,
            Transform::TwoD => 1,
        }
    }
}

/// The format word made of the five numbers, each in its field.
pub open spec fn pack_vtype(
    texture: u32,
    color: u32,
    normal: u32,
    position: u32,
    transform: u32,
) -> u32 {
    texture | color << 2 | normal << 5 | position << 7 | transform << 23
}

impl VertexFormat {
    /// A layout from its components.
    pub fn new(
        texture: TextureFormat,
        color: ColorFormat,
        normal: NormalFormat,
        position: PositionFormat,
        transform: Transform,
    ) -> (f: VertexFormat)
        ensures
            f == (VertexFormat { texture, color, normal, position, transform }),
    {
        VertexFormat { texture, color, normal, position, transform }
    }
}

impl Vertex for VertexFormat {
    open spec fn spec_vtype(&self) -> u32 {
        pack_vtype(
            self.texture.spec_code(),
            self.color.spec_code(),
            self.normal.spec_code(),
            self.position.spec_code(),
            self.transform.spec_code(),
        )
    }

    fn vtype(&self) -> (bits: u32) {
        let texture = self.texture.code();
        let color = self.color.code();
        let normal = self.normal.code();
        let position = self.position.code();
        let transform = self.transform.code();
        assert(color << 2 <= 28 && normal << 5 <= 96 && position << 7 <= 384 && transform << 23
            <= 0x80_0000) by (bit_vector)
            requires
                color <= 7,
                normal <= 3,
                position <= 3,
                transform <= 1,
        ;
        texture | color << 2 | normal << 5 | position << 7 | transform << 23
    }
}

/// Each field of a format word gives back the number that was put into it,
/// and the word has no bit outside the five fields.
pub proof fn lemma_vtype_fields(
    texture: u32,
    color: u32,
    normal: u32,
    position: u32,
    transform: u32,
)
    requires
        texture <= 3,
        color <= 7,
        normal <= 3,
        position <= 3,
        transform <= 1,
    ensures
        pack_vtype(texture, color, normal, position, transform) & 3 == texture,
        (pack_vtype(texture, color, normal, position, transform) >> 2) & 7 == color,
        (pack_vtype(texture, color, normal, position, transform) >> 5) & 3 == normal,
        (pack_vtype(texture, color, normal, position, transform) >> 7) & 3 == position,
        (pack_vtype(texture, color, normal, position, transform) >> 23) & 1 == transform,
        pack_vtype(texture, color, normal, position, transform) & !VERTEX_BITS == 0,
{
    let word = pack_vtype(texture, color, normal, position, transform);
    assert(word & 3 == texture && (word >> 2) & 7 == color && (word >> 5) & 3 == normal && (word
        >> 7) & 3 == position && (word >> 23) & 1 == transform && word & !0x0080_01ffu32 == 0)
        by (bit_vector)
        requires
            word == texture | color << 2 | normal << 5 | position << 7 | transform << 23,
            texture <= 3,
            color <= 7,
            normal <= 3,
            position <= 3,
            transform <= 1,
    ;
}

/// Two layouts with the same format word are the same layout: the word tells
/// the hardware exactly how the elements lie in memory.
pub proof fn lemma_vtype_injective(f: VertexFormat, g: VertexFormat)
    requires
        f.spec_vtype() == g.spec_vtype(),
    ensures
        f == g,
{
    lemma_vtype_fields(
        f.texture.spec_code(),
        f.color.spec_code(),
        f.normal.spec_code(),
        f.position.spec_code(),
        f.transform.spec_code(),
    );
    lemma_vtype_fields(
        g.texture.spec_code(),
        g.color.spec_code(),
        g.normal.spec_code(),
        g.position.spec_code(),
        g.transform.spec_code(),
    );
}

} // verus!
