//! Buffers of typed elements that a draw can read.
//!
//! A buffer is a run of elements of one layout. This layer never reads the
//! elements: it needs to know how many there are, how they are laid out, and
//! where the hardware finds them.

use vstd::prelude::*;

verus! {

/// Where the elements of a buffer are kept.
#[derive(Clone, Copy, Debug, PartialEq, Eq, Structural)]
pub enum BufferSource {
    /// In memory that the caller owns and keeps in place, at this address.
    Memory(usize),
    /// In the scratch region of one frame: the block with number `slot` among
    /// those carved out in frame number `frame`. The block is gone when that
    /// frame closes.
    Scratch { frame: u64, slot: usize },
}

/// What every buffer tells a draw.
pub trait Buffer {
    /// The layout of one element.
    type Item;

    /// The number of elements.
    spec fn spec_len(&self) -> usize;

    /// The layout of the elements.
    spec fn spec_tag(&self) -> Self::Item;

    /// Where the elements are kept.
    spec fn spec_address(&self) -> BufferSource;

    /// The number of elements.
    fn len(&self) -> (n: usize)
        ensures
            n == self.spec_len(),
    ;

    /// The layout of the elements.
    fn element_type_tag(&self) -> (tag: &Self::Item)
        ensures
            *tag == self.spec_tag(),
    ;

    /// Where the elements are kept.
    fn raw_address(&self) -> (source: BufferSource)
        ensures
            source == self.spec_address(),
    ;
}

/// A buffer in memory that the caller owns. The caller keeps the elements in
/// place, and laid out as the tag says, for as long as a draw may read them.
#[derive(Debug)]
pub struct PersistentBuffer<T> {
    tag: T,
    address: usize,
    len: usize,
}

/// A buffer in the scratch region of a frame. It owns no memory: it is a view
/// that is good until the frame that made it closes.
#[derive(Debug)]
pub struct TransientBuffer<T> {
    tag: T,
    frame: u64,
    slot: usize,
    len: usize,
}

impl<T> PersistentBuffer<T> {
    /// Describes `len` elements of layout `tag` that lie at `address`.
    pub fn new(tag: T, address: usize, len: usize) -> (b: PersistentBuffer<T>)
        ensures
            b.spec_tag() == tag,
            b.spec_address() == BufferSource::Memory(address),
            b.spec_len() == len,
    {
        PersistentBuffer { tag, address, len }
    }
}

impl<T> Buffer for PersistentBuffer<T> {
    type Item = T;

    closed spec fn spec_len(&self) -> usize {
        self.len
    }

    closed spec fn spec_tag(&self) -> T {
        self.tag
    }

    closed spec fn spec_address(&self) -> BufferSource {
        BufferSource::Memory(self.address)
    }

    fn len(&self) -> (n: usize) {
        self.len
    }

    fn element_type_tag(&self) -> (tag: &T) {
        &self.tag
    }

    fn raw_address(&self) -> (source: BufferSource) {
        BufferSource::Memory(self.address)
    }
}

impl<T> TransientBuffer<T> {
    /// The view of block `slot` of frame `frame`, holding `len` elements of
    /// layout `tag`.
    pub(crate) fn new(tag: T, frame: u64, slot: usize, len: usize) -> (b: TransientBuffer<T>)
        ensures
            b.spec_tag() == tag,
            b.spec_address() == (BufferSource::Scratch { frame, slot }),
            b.spec_len() == len,
    {
        TransientBuffer { tag, frame, slot, len }
    }
}

impl<T> Buffer for TransientBuffer<T> {
    type Item = T;

    closed spec fn spec_len(&self) -> usize {
        self.len
    }

    closed spec fn spec_tag(&self) -> T {
        self.tag
    }

    closed spec fn spec_address(&self) -> BufferSource {
        BufferSource::Scratch { frame: self.frame, slot: self.slot }
    }

    fn len(&self) -> (n: usize) {
        self.len
    }

    fn element_type_tag(&self) -> (tag: &T) {
        &self.tag
    }

    fn raw_address(&self) -> (source: BufferSource) {
        BufferSource::Scratch { frame: self.frame, slot: self.slot }
    }
}

} // verus!
