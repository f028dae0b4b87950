//! The OpenGL calls that the renderer issues, recorded as data.
//!
//! Every drawing or resource-setup operation of the library appends the GL
//! calls it makes, in order, to a command list; the GL backend replays the
//! list against the driver.  Floating-point arguments (only the clear colour)
//! travel as their IEEE-754 bit patterns, and buffer contents as 32-bit words.

use vstd::prelude::*;

verus! {

/// Texel data handed to a sub-image upload.
#[derive(Clone, Debug, PartialEq, Eq)]
pub enum PixelData {
    /// One byte per channel (`GL_UNSIGNED_BYTE` sources).
    Bytes(Vec<u8>),
    /// 32-bit words (single-precision float sources, carried bit for bit).
    Words(Vec<u32>),
}

/// The mathematical content of a [`PixelData`].
pub enum Pixels {
    Bytes(Seq<u8>),
    Words(Seq<u32>),
}

impl View for PixelData {
    type V = Pixels;

    open spec fn view(&self) -> Pixels {
        match self {
            PixelData::Bytes(b) => Pixels::Bytes(b@),
            PixelData::Words(w) => Pixels::Words(w@),
        }
    }
}

/// One OpenGL call with its arguments (direct-state-access entry points).
#[derive(Clone, Debug, PartialEq, Eq)]
pub enum GlCommand {
    BindBufferBase { target: u32, index: u32, buffer: u32 },
    /// `glNamedBufferData` with the given words as contents (4 bytes each).
    NamedBufferData { buffer: u32, words: Vec<u32>, usage: u32 },
    /// `glNamedBufferData` with a null data pointer: storage only.
    NamedBufferAllocate { buffer: u32, byte_size: usize, usage: u32 },
    /// `glNamedBufferSubData` at offset 0.
    NamedBufferSubData { buffer: u32, words: Vec<u32> },
    VertexArrayVertexBuffer { vao: u32, binding_index: u32, buffer: u32, offset: usize, stride: i32 },
    VertexArrayElementBuffer { vao: u32, buffer: u32 },
    EnableVertexArrayAttrib { vao: u32, attrib_index: u32 },
    VertexArrayAttribFormat {
        vao: u32,
        attrib_index: u32,
        size: i32,
        component_type: u32,
        normalized: bool,
        relative_offset: u32,
    },
    VertexArrayAttribBinding { vao: u32, attrib_index: u32, binding_index: u32 },
    BindVertexArray { vao: u32 },
    UseProgram { program: u32 },
    TextureStorage2D { texture: u32, levels: i32, internal_format: u32, width: i32, height: i32 },
    TextureSubImage2D {
        texture: u32,
        level: i32,
        x_offset: i32,
        y_offset: i32,
        width: i32,
        height: i32,
        format: u32,
        pixel_type: u32,
        pixels: PixelData,
    },
    TextureParameteri { texture: u32, pname: u32, param: i32 },
    GenerateTextureMipmap { texture: u32 },
    DeleteTexture { texture: u32 },
    BindTextureUnit { unit: u32, texture: u32 },
    BindFramebuffer { target: u32, framebuffer: u32 },
    Viewport { x: i32, y: i32, width: i32, height: i32 },
    NamedFramebufferTexture { framebuffer: u32, attachment: u32, texture: u32, level: i32 },
    NamedFramebufferDrawBuffers { framebuffer: u32, buffers: Vec<u32> },
    /// `glClearColor`, each channel given by its `f32` bit pattern.
    ClearColor { red: u32, green: u32, blue: u32, alpha: u32 },
    Clear { mask: u32 },
    DepthFunc { func: u32 },
    Enable { capability: u32 },
    Disable { capability: u32 },
    CullFace { mode: u32 },
    DeleteBuffer { buffer: u32 },
    DeleteVertexArray { vao: u32 },
    DeleteProgram { program: u32 },
    /// `glUniform1i` on the uniform called `name` of the current program
    /// `program` (skipped when the program has no such uniform).
    SetUniformInt { program: u32, name: String, value: i32 },
    /// `glUniformMatrix4fv` of one column-major matrix, given as the bit
    /// patterns of its 16 `f32` entries, on the uniform called `name` of the
    /// current program `program` (skipped when there is no such uniform).
    SetUniformMatrix4 { program: u32, name: String, columns: Vec<u32> },
    /// `glDrawElements` reading indices from the bound element buffer at offset 0.
    DrawElements { mode: u32, count: i32, index_type: u32 },
    DrawArrays { mode: u32, first: i32, count: i32 },
    /// `glCopyImageSubData` of a `width` x `height` x `depth` block.
    CopyImageSubData {
        src_name: u32,
        src_target: u32,
        src_level: i32,
        src_x: i32,
        src_y: i32,
        src_z: i32,
        dst_name: u32,
        dst_target: u32,
        dst_level: i32,
        dst_x: i32,
        dst_y: i32,
        dst_z: i32,
        width: i32,
        height: i32,
        depth: i32,
    },
}

/// The mathematical content of a [`GlCommand`]: the same call, with its
/// vector arguments as sequences.
pub enum GlCall {
    BindBufferBase { target: u32, index: u32, buffer: u32 },
    NamedBufferData { buffer: u32, words: Seq<u32>, usage: u32 },
    NamedBufferAllocate { buffer: u32, byte_size: usize, usage: u32 },
    NamedBufferSubData { buffer: u32, words: Seq<u32> },
    VertexArrayVertexBuffer { vao: u32, binding_index: u32, buffer: u32, offset: usize, stride: i32 },
    VertexArrayElementBuffer { vao: u32, buffer: u32 },
    EnableVertexArrayAttrib { vao: u32, attrib_index: u32 },
    VertexArrayAttribFormat {
        vao: u32,
        attrib_index: u32,
        size: i32,
        component_type: u32,
        normalized: bool,
        relative_offset: u32,
    },
    VertexArrayAttribBinding { vao: u32, attrib_index: u32, binding_index: u32 },
    BindVertexArray { vao: u32 },
    UseProgram { program: u32 },
    TextureStorage2D { texture: u32, levels: i32, internal_format: u32, width: i32, height: i32 },
    TextureSubImage2D {
        texture: u32,
        level: i32,
        x_offset: i32,
        y_offset: i32,
        width: i32,
        height: i32,
        format: u32,
        pixel_type: u32,
        pixels: Pixels,
    },
    TextureParameteri { texture: u32, pname: u32, param: i32 },
    GenerateTextureMipmap { texture: u32 },
    DeleteTexture { texture: u32 },
    BindTextureUnit { unit: u32, texture: u32 },
    BindFramebuffer { target: u32, framebuffer: u32 },
    Viewport { x: i32, y: i32, width: i32, height: i32 },
    NamedFramebufferTexture { framebuffer: u32, attachment: u32, texture: u32, level: i32 },
    NamedFramebufferDrawBuffers { framebuffer: u32, buffers: Seq<u32> },
    ClearColor { red: u32, green: u32, blue: u32, alpha: u32 },
    Clear { mask: u32 },
    DepthFunc { func: u32 },
    Enable { capability: u32 },
    Disable { capability: u32 },
    CullFace { mode: u32 },
    DeleteBuffer { buffer: u32 },
    DeleteVertexArray { vao: u32 },
    DeleteProgram { program: u32 },
    SetUniformInt { program: u32, name: Seq<char>, value: i32 },
    SetUniformMatrix4 { program: u32, name: Seq<char>, columns: Seq<u32> },
    DrawElements { mode: u32, count: i32, index_type: u32 },
    DrawArrays { mode: u32, first: i32, count: i32 },
    CopyImageSubData {
        src_name: u32,
        src_target: u32,
        src_level: i32,
        src_x: i32,
        src_y: i32,
        src_z: i32,
        dst_name: u32,
        dst_target: u32,
        dst_level: i32,
        dst_x: i32,
        dst_y: i32,
        dst_z: i32,
        width: i32,
        height: i32,
        depth: i32,
    },
}

impl View for GlCommand {
    type V = GlCall;

    open spec fn view(&self) -> GlCall {
        match self {
            GlCommand::BindBufferBase { target, index, buffer } => GlCall::BindBufferBase {
                target: *target,
                index: *index,
                buffer: *buffer,
            },
            GlCommand::NamedBufferData { buffer, words, usage } => GlCall::NamedBufferData {
                buffer: *buffer,
                words: words@,
                usage: *usage,
            },
            GlCommand::NamedBufferAllocate { buffer, byte_size, usage } => GlCall::NamedBufferAllocate {
                buffer: *buffer,
                byte_size: *byte_size,
                usage: *usage,
            },
            GlCommand::NamedBufferSubData { buffer, words } => GlCall::NamedBufferSubData {
                buffer: *buffer,
                words: words@,
            },
            GlCommand::VertexArrayVertexBuffer { vao, binding_index, buffer, offset, stride } =>
                GlCall::VertexArrayVertexBuffer {
                vao: *vao,
                binding_index: *binding_index,
                buffer: *buffer,
                offset: *offset,
                stride: *stride,
            },
            GlCommand::VertexArrayElementBuffer { vao, buffer } => GlCall::VertexArrayElementBuffer {
                vao: *vao,
                buffer: *buffer,
            },
            GlCommand::EnableVertexArrayAttrib { vao, attrib_index } =>
                GlCall::EnableVertexArrayAttrib { vao: *vao, attrib_index: *attrib_index },
            GlCommand::VertexArrayAttribFormat {
                vao,
                attrib_index,
                size,
                component_type,
                normalized,
                relative_offset,
            } => GlCall::VertexArrayAttribFormat {
                vao: *vao,
                attrib_index: *attrib_index,
                size: *size,
                component_type: *component_type,
                normalized: *normalized,
                relative_offset: *relative_offset,
            },
            GlCommand::VertexArrayAttribBinding { vao, attrib_index, binding_index } =>
                GlCall::VertexArrayAttribBinding {
                vao: *vao,
                attrib_index: *attrib_index,
                binding_index: *binding_index,
            },
            GlCommand::BindVertexArray { vao } => GlCall::BindVertexArray { vao: *vao },
            GlCommand::UseProgram { program } => GlCall::UseProgram { program: *program },
            GlCommand::TextureStorage2D { texture, levels, internal_format, width, height } =>
                GlCall::TextureStorage2D {
                texture: *texture,
                levels: *levels,
                internal_format: *internal_format,
                width: *width,
                height: *height,
            },
            GlCommand::TextureSubImage2D {
                texture,
                level,
                x_offset,
                y_offset,
                width,
                height,
                format,
                pixel_type,
                pixels,
            } => GlCall::TextureSubImage2D {
                texture: *texture,
                level: *level,
                x_offset: *x_offset,
                y_offset: *y_offset,
                width: *width,
                height: *height,
                format: *format,
                pixel_type: *pixel_type,
                pixels: pixels@,
            },
            GlCommand::TextureParameteri { texture, pname, param } => GlCall::TextureParameteri {
                texture: *texture,
                pname: *pname,
                param: *param,
            },
            GlCommand::GenerateTextureMipmap { texture } => GlCall::GenerateTextureMipmap {
                texture: *texture,
            },
            GlCommand::DeleteTexture { texture } => GlCall::DeleteTexture { texture: *texture },
            GlCommand::BindTextureUnit { unit, texture } => GlCall::BindTextureUnit {
                unit: *unit,
                texture: *texture,
            },
            GlCommand::BindFramebuffer { target, framebuffer } => GlCall::BindFramebuffer {
                target: *target,
                framebuffer: *framebuffer,
            },
            GlCommand::Viewport { x, y, width, height } => GlCall::Viewport {
                x: *x,
                y: *y,
                width: *width,
                height: *height,
            },
            GlCommand::NamedFramebufferTexture { framebuffer, attachment, texture, level } =>
                GlCall::NamedFramebufferTexture {
                framebuffer: *framebuffer,
                attachment: *attachment,
                texture: *texture,
                level: *level,
            },
            GlCommand::NamedFramebufferDrawBuffers { framebuffer, buffers } =>
                GlCall::NamedFramebufferDrawBuffers { framebuffer: *framebuffer, buffers: buffers@ },
            GlCommand::ClearColor { red, green, blue, alpha } => GlCall::ClearColor {
                red: *red,
                green: *green,
                blue: *blue,
                alpha: *alpha,
            },
            GlCommand::Clear { mask } => GlCall::Clear { mask: *mask },
            GlCommand::DepthFunc { func } => GlCall::DepthFunc { func: *func },
            GlCommand::Enable { capability } => GlCall::Enable { capability: *capability },
            GlCommand::Disable { capability } => GlCall::Disable { capability: *capability },
            GlCommand::CullFace { mode } => GlCall::CullFace { mode: *mode },
            GlCommand::DeleteBuffer { buffer } => GlCall::DeleteBuffer { buffer: *buffer },
            GlCommand::DeleteVertexArray { vao } => GlCall::DeleteVertexArray { vao: *vao },
            GlCommand::DeleteProgram { program } => GlCall::DeleteProgram { program: *program },
            GlCommand::SetUniformInt { program, name, value } => GlCall::SetUniformInt {
                program: *program,
                name: name@,
                value: *value,
            },
            GlCommand::SetUniformMatrix4 { program, name, columns } => GlCall::SetUniformMatrix4 {
                program: *program,
                name: name@,
                columns: columns@,
            },
            GlCommand::DrawElements { mode, count, index_type } => GlCall::DrawElements {
                mode: *mode,
                count: *count,
                index_type: *index_type,
            },
            GlCommand::DrawArrays { mode, first, count } => GlCall::DrawArrays {
                mode: *mode,
                first: *first,
                count: *count,
            },
            GlCommand::CopyImageSubData {
                src_name,
                src_target,
                src_level,
                src_x,
                src_y,
                src_z,
                dst_name,
                dst_target,
                dst_level,
                dst_x,
                dst_y,
                dst_z,
                width,
                height,
                depth,
            } => GlCall::CopyImageSubData {
                src_name: *src_name,
                src_target: *src_target,
                src_level: *src_level,
                src_x: *src_x,
                src_y: *src_y,
                src_z: *src_z,
                dst_name: *dst_name,
                dst_target: *dst_target,
                dst_level: *dst_level,
                dst_x: *dst_x,
                dst_y: *dst_y,
                dst_z: *dst_z,
                width: *width,
                height: *height,
                depth: *depth,
            },
        }
    }
}

/// The calls that a command list stands for, in order.
pub open spec fn calls_of(cmds: Seq<GlCommand>) -> Seq<GlCall> {
    cmds.map_values(|c: GlCommand| c@)
}

/// Appends one call to a command list.
pub fn emit(out: &mut Vec<GlCommand>, cmd: GlCommand)
    ensures
        calls_of(final(out)@) == calls_of(old(out)@).push(cmd@),
{
    let ghost c = cmd@;
    out.push(cmd);
    assert(calls_of(out@) =~= calls_of(old(out)@).push(c));
}

} // verus!
