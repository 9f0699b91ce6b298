//! GPU buffers, described by their size and by what they may be used for.

use vstd::prelude::*;
use crate::usage::BufferUsages;

verus! {

/// A buffer: how many bytes it holds, what it may be used for, and whether
/// it starts out mapped for writing by the CPU.
#[derive(Clone, Copy, Debug, PartialEq, Eq, Structural)]
pub struct Buffer {
    size: u64,
    usages: BufferUsages,
    mapped: bool,
}

/// The mathematical content of a [`Buffer`].
pub struct BufferView {
    pub size: u64,
    pub usages: BufferUsages,
    pub mapped: bool,
}

impl View for Buffer {
    type V = BufferView;

    closed spec fn view(&self) -> BufferView {
        BufferView { size: self.size, usages: self.usages, mapped: self.mapped }
    }
}

impl Buffer {
    /// An empty buffer of `size` bytes, mapped at creation if `mapped`.
    pub fn new(size: u64, usages: BufferUsages, mapped: bool) -> (buffer: Buffer)
        ensures
            buffer@ == (BufferView { size, usages, mapped }),
    {
        Buffer { size, usages, mapped }
    }

    /// A buffer that was created holding its contents. `size` is what the
    /// device reports of the buffer once it is made; the buffer is handed
    /// over unmapped.
    pub fn new_init(size: u64, usages: BufferUsages) -> (buffer: Buffer)
        ensures
            buffer@ == (BufferView { size, usages, mapped: false }),
    {
        Buffer { size, usages, mapped: false }
    }

    pub fn size(&self) -> (size: u64)
        ensures
            size == self@.size,
    {
        self.size
    }

    pub fn usages(&self) -> (usages: BufferUsages)
        ensures
            usages == self@.usages,
    {
        self.usages
    }

    /// Whether the buffer is mapped when it is created.
    pub fn mapped_at_creation(&self) -> (mapped: bool)
        ensures
            mapped == self@.mapped,
    {
        self.mapped
    }
}

} // verus!
