//! What can go wrong in this layer.

use vstd::prelude::*;

verus! {

/// The ways in which an operation of this layer is refused.
#[derive(Clone, Copy, Debug, PartialEq, Eq, Structural)]
pub enum GfxError {
    /// One of the three fixed video-memory regions could not be had. Nothing
    /// can be drawn without them: initialisation is given up.
    OutOfVideoMemory,
    /// A transient buffer was used outside the frame that carved it out, when
    /// its scratch memory may already hold something else.
    StaleBuffer,
}

} // verus!
