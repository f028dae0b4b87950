//! Vertex array objects.

use vstd::prelude::*;

use crate::buffer::Buffer;
use crate::command::{calls_of, emit, GlCall, GlCommand};
use crate::gl_enums::FLOAT;

verus! {

/// A GL vertex array object, named by `id`.
#[derive(PartialEq, Eq, Structural, Debug)]
pub struct VertexArray {
    pub id: u32,
}

/// The calls that enable float attribute `attrib_index` with `size`
/// components at byte `offset` of binding `binding_index`.
pub open spec fn enable_attribute_calls(
    vao: u32,
    attrib_index: u32,
    size: i32,
    binding_index: u32,
    offset: usize,
) -> Seq<GlCall> {
    seq![
        GlCall::EnableVertexArrayAttrib { vao, attrib_index },
        GlCall::VertexArrayAttribFormat {
            vao,
            attrib_index,
            size,
            component_type: FLOAT,
            normalized: false,
            relative_offset: offset as u32,
        },
        GlCall::VertexArrayAttribBinding { vao, attrib_index, binding_index },
    ]
}

impl VertexArray {
    /// Deletes the vertex array object.
    pub fn delete(self, out: &mut Vec<GlCommand>)
        ensures
            calls_of(final(out)@) == calls_of(old(out)@).push(GlCall::DeleteVertexArray { vao: self.id }),
    {
        emit(out, GlCommand::DeleteVertexArray { vao: self.id });
    }

    /// Attaches `buffer` as the vertex buffer at `binding_index`.
    pub fn set_vertex_buffer(
        &self,
        out: &mut Vec<GlCommand>,
        binding_index: u32,
        buffer: &Buffer,
        offset: usize,
        stride: i32,
    )
        ensures
            calls_of(final(out)@) == calls_of(old(out)@).push(
                GlCall::VertexArrayVertexBuffer {
                    vao: self.id,
                    binding_index,
                    buffer: buffer.id,
                    offset,
                    stride,
                },
            ),
    {
        emit(
            out,
            GlCommand::VertexArrayVertexBuffer {
                vao: self.id,
                binding_index,
                buffer: buffer.id,
                offset,
                stride,
            },
        );
    }

    /// Attaches `buffer` as the element (index) buffer.
    pub fn set_element_buffer(&self, out: &mut Vec<GlCommand>, buffer: &Buffer)
        ensures
            calls_of(final(out)@) == calls_of(old(out)@).push(
                GlCall::VertexArrayElementBuffer { vao: self.id, buffer: buffer.id },
            ),
    {
        emit(out, GlCommand::VertexArrayElementBuffer { vao: self.id, buffer: buffer.id });
    }

    /// Enables a float attribute: `size` components, read at byte `offset`
    /// of each element of binding `binding_index`.
    pub fn enable_attribute(
        &self,
        out: &mut Vec<GlCommand>,
        attrib_index: u32,
        size: i32,
        binding_index: u32,
        offset: usize,
    )
        ensures
            calls_of(final(out)@) == calls_of(old(out)@) + enable_attribute_calls(
                self.id,
                attrib_index,
                size,
                binding_index,
                offset,
            ),
    {
        emit(out, GlCommand::EnableVertexArrayAttrib { vao: self.id, attrib_index });
        emit(
            out,
            GlCommand::VertexArrayAttribFormat {
                vao: self.id,
                attrib_index,
                size,
                component_type: FLOAT,
                normalized: false,
                relative_offset: offset as u32,
            },
        );
        emit(out, GlCommand::VertexArrayAttribBinding { vao: self.id, attrib_index, binding_index });
        assert(calls_of(out@) =~= calls_of(old(out)@) + enable_attribute_calls(
            self.id,
            attrib_index,
            size,
            binding_index,
            offset,
        ));
    }

    /// Makes this vertex array current.
    pub fn bind(&self, out: &mut Vec<GlCommand>)
        ensures
            calls_of(final(out)@) == calls_of(old(out)@).push(GlCall::BindVertexArray { vao: self.id }),
    {
        emit(out, GlCommand::BindVertexArray { vao: self.id });
    }
}

} // verus!
