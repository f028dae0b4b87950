//! GPU buffer objects.

use vstd::prelude::*;
use vstd::slice::slice_to_vec;

use crate::command::{calls_of, emit, GlCall, GlCommand};
use crate::gl_enums::UNIFORM_BUFFER;

verus! {

/// A GL buffer object, named by `id`.
#[derive(PartialEq, Eq, Structural, Debug)]
pub struct Buffer {
    pub id: u32,
}

impl Buffer {
    /// Fills the buffer with `data` (generic data such as vertices or
    /// indices, 4 bytes per word), replacing its storage.
    pub fn upload(&self, out: &mut Vec<GlCommand>, data: &[u32], usage: u32)
        ensures
            calls_of(final(out)@) == calls_of(old(out)@).push(
                GlCall::NamedBufferData { buffer: self.id, words: data@, usage },
            ),
    {
        emit(out, GlCommand::NamedBufferData { buffer: self.id, words: slice_to_vec(data), usage });
    }

    /// Allocates `size` bytes of uninitialised storage (used for uniform
    /// buffers, which are written afterwards).
    pub fn allocate(&self, out: &mut Vec<GlCommand>, size: usize, usage: u32)
        ensures
            calls_of(final(out)@) == calls_of(old(out)@).push(
                GlCall::NamedBufferAllocate { buffer: self.id, byte_size: size, usage },
            ),
    {
        emit(out, GlCommand::NamedBufferAllocate { buffer: self.id, byte_size: size, usage });
    }

    /// Overwrites the start of the buffer with `data`.
    pub fn write(&self, out: &mut Vec<GlCommand>, data: &[u32])
        ensures
            calls_of(final(out)@) == calls_of(old(out)@).push(
                GlCall::NamedBufferSubData { buffer: self.id, words: data@ },
            ),
    {
        emit(out, GlCommand::NamedBufferSubData { buffer: self.id, words: slice_to_vec(data) });
    }

    /// Deletes the buffer object.
    pub fn delete(self, out: &mut Vec<GlCommand>)
        ensures
            calls_of(final(out)@) == calls_of(old(out)@).push(GlCall::DeleteBuffer { buffer: self.id }),
    {
        emit(out, GlCommand::DeleteBuffer { buffer: self.id });
    }

    /// Binds the buffer to uniform-buffer binding point `index`.
    pub fn bind_base(&self, out: &mut Vec<GlCommand>, index: u32)
        ensures
            calls_of(final(out)@) == calls_of(old(out)@).push(
                GlCall::BindBufferBase { target: UNIFORM_BUFFER, index, buffer: self.id },
            ),
    {
        emit(out, GlCommand::BindBufferBase { target: UNIFORM_BUFFER, index, buffer: self.id });
    }
}

} // verus!
