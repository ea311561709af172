//! The vocabulary of the graphics engine: every operation that a context or a
//! frame can ask of the hardware, as a plain value.

use vstd::prelude::*;

verus! {

/// Width of the visible screen, in pixels.
pub const SCREEN_WIDTH: u32 = 480;

/// Height of the visible screen, in pixels.
pub const SCREEN_HEIGHT: u32 = 272;

/// Width of a buffer line in pixels: the screen width padded to a power of two.
pub const BUF_WIDTH: u32 = 512;

/// Centre of the virtual coordinate space of the engine, on both axes.
pub const VIRTUAL_CENTER: u32 = 2048;

/// The largest value a cell of the depth buffer holds.
pub const DEPTH_MAX: i32 = 65535;

/// Bit of the clear mask that selects the colour buffer.
pub const COLOR_BUFFER_BIT: u32 = 1;

/// Bit of the clear mask that selects the depth buffer.
pub const DEPTH_BUFFER_BIT: u32 = 4;

/// How the cells of a video-memory region are laid out.
#[derive(Clone, Copy, Debug, PartialEq, Eq, Structural)]
pub enum PixelFormat {
    /// 16 bits per cell, 5:6:5.
    Psm5650,
    /// 16 bits per cell, 5:5:5:1.
    Psm5551,
    /// 16 bits per cell, 4:4:4:4.
    Psm4444,
    /// 32 bits per cell, 8:8:8:8.
    Psm8888,
}

/// How a run of vertices is assembled into shapes.
#[derive(Clone, Copy, Debug, PartialEq, Eq, Structural)]
pub enum GuPrimitive {
    Points,
    Lines,
    LineStrip,
    Triangles,
    TriangleStrip,
    TriangleFan,
    Sprites,
}

/// A switch of the fixed-function pipeline.
#[derive(Clone, Copy, Debug, PartialEq, Eq, Structural)]
pub enum GuState {
    AlphaTest,
    DepthTest,
    ScissorTest,
    StencilTest,
    Blend,
    CullFace,
    Dither,
    Fog,
    ClipPlanes,
    Texture2D,
    Lighting,
    Light0,
    Light1,
    Light2,
    Light3,
    LineSmooth,
    PatchCullFace,
    ColorTest,
    ColorLogicOp,
    FaceNormalReverse,
    PatchFace,
    Fragment2X,
}

/// How colour is interpolated across a primitive.
#[derive(Clone, Copy, Debug, PartialEq, Eq, Structural)]
pub enum ShadingModel {
    Flat,
    Smooth,
}

/// How a texture is combined with the fragment it covers.
#[derive(Clone, Copy, Debug, PartialEq, Eq, Structural)]
pub enum TextureEffect {
    Modulate,
    Decal,
    Blend,
    Replace,
    Add,
}

/// Which components of a texture take part in the texture effect.
#[derive(Clone, Copy, Debug, PartialEq, Eq, Structural)]
pub enum TextureColorComponent {
    Rgb,
    Rgba,
}

/// Where the elements of a buffer lie when a draw reads them.
#[derive(Clone, Copy, Debug, PartialEq, Eq, Structural)]
pub enum BufferAddress {
    /// Memory that the caller owns, by its address.
    Memory(usize),
    /// A block of the scratch region of the list being recorded, by the order
    /// in which the blocks of that list were carved out.
    Scratch(usize),
}

/// One operation asked of the graphics engine.
///
/// The context and the frame decide which operations are issued and in which
/// order; whoever drives the hardware performs them one by one, in that order.
#[derive(Clone, Copy, Debug, PartialEq, Eq, Structural)]
pub enum GuCommand {
    /// Bring the engine up.
    Init,
    /// Reset the current matrix to the identity.
    LoadIdentity,
    /// Open a command list for direct execution in the shared list memory.
    Start,
    /// Register the buffer that is drawn into.
    DrawBuffer { format: PixelFormat, address: usize, stride: i32 },
    /// Register the buffer that is shown.
    DispBuffer { width: i32, height: i32, address: usize, stride: i32 },
    /// Register the depth buffer.
    DepthBuffer { address: usize, stride: i32 },
    /// Place the screen inside the virtual coordinate space.
    Offset(u32, u32),
    /// Set the viewport by its centre and size.
    Viewport { cx: i32, cy: i32, width: i32, height: i32 },
    /// Set the depth range.
    DepthRange { near: i32, far: i32 },
    /// Restrict drawing to a rectangle.
    Scissor { x: i32, y: i32, w: i32, h: i32 },
    /// Switch a pipeline state on.
    Enable(GuState),
    /// End the recording of the open command list.
    Finish,
    /// Block until the engine has executed every queued operation.
    Sync,
    /// Block until the next vertical blank begins.
    WaitVblankStart,
    /// Switch the display engine on or off.
    Display(bool),
    /// Exchange the roles of the drawn and the shown buffer.
    SwapBuffers,
    /// Set the colour that a clear writes, in the packed order of the hardware.
    ClearColor(u32),
    /// Set the depth that a clear writes.
    ClearDepth(u32),
    /// Clear the buffers selected by the mask.
    Clear(u32),
    /// Set how textures are applied.
    TexFunc(TextureEffect, TextureColorComponent),
    /// Set how colour is interpolated.
    ShadeModel(ShadingModel),
    /// Set the current colour, in the packed order of the hardware.
    Color(u32),
    /// Carve the next block out of the scratch region, for `len` elements.
    GetMemory { slot: usize, len: usize },
    /// Draw `count` elements.
    DrawArray {
        primitive: GuPrimitive,
        vtype: u32,
        count: usize,
        indices: Option<BufferAddress>,
        vertices: BufferAddress,
    },
}

} // verus!
