//! The HDR render pass: the scene is drawn into an RGBA16F colour target
//! with a 24-bit depth buffer, later tone-mapped to the screen.

use vstd::prelude::*;

use crate::command::{calls_of, emit, GlCall, GlCommand};
use crate::framebuffer::{
    color_attachment, color_recreate_calls, draw_buffer_list, max_color_attachments, recreated, Framebuffer,
};
use crate::gl_enums::{
    CLAMP_TO_EDGE, COLOR_ATTACHMENT0, COLOR_BUFFER_BIT, DEPTH_BUFFER_BIT, DEPTH_ATTACHMENT, DEPTH_COMPONENT24,
    FRAMEBUFFER, LINEAR, NEAREST, REPEAT, RGBA16F,
};
use crate::texture::{empty_texture_calls, Texture2D};

verus! {

/// Bit pattern of the `f32` value 1.0.
pub const ONE_F32_BITS: u32 = 0x3F80_0000;

/// The calls that clear the bound framebuffer (viewport `width` x `height`)
/// to opaque black and reset its depth.
pub open spec fn clear_calls(width: u32, height: u32) -> Seq<GlCall> {
    seq![
        GlCall::Viewport { x: 0, y: 0, width: width as i32, height: height as i32 },
        GlCall::ClearColor { red: 0, green: 0, blue: 0, alpha: ONE_F32_BITS },
        GlCall::Clear { mask: COLOR_BUFFER_BIT | DEPTH_BUFFER_BIT },
    ]
}

/// The HDR pass, owning its framebuffer.
pub struct HdrPass {
    pub framebuffer: Framebuffer,
}

impl HdrPass {
    /// The framebuffer is well formed: one RGBA16F colour attachment and a
    /// depth attachment.
    pub open spec fn wf(&self) -> bool {
        &&& self.framebuffer.color@.len() == 1
        &&& self.framebuffer.depth is Some
    }

    /// Creates the pass at `width` x `height`: framebuffer `framebuffer_id`
    /// with colour texture `color_id` (RGBA16F, linear, repeat) and depth
    /// texture `depth_id` (DEPTH_COMPONENT24, nearest, clamped).
    pub fn new(
        out: &mut Vec<GlCommand>,
        framebuffer_id: u32,
        color_id: u32,
        depth_id: u32,
        width: u32,
        height: u32,
    ) -> (pass: Self)
        ensures
            pass.wf(),
            pass.framebuffer.id == framebuffer_id,
            pass.framebuffer.width == width,
            pass.framebuffer.height == height,
            pass.framebuffer.color@[0] == (Texture2D {
                id: color_id,
                width: width as i32,
                height: height as i32,
                internal_format: RGBA16F,
                format: 0,
            }),
            pass.framebuffer.depth == Some(Texture2D {
                id: depth_id,
                width: width as i32,
                height: height as i32,
                internal_format: DEPTH_COMPONENT24,
                format: 0,
            }),
            calls_of(final(out)@) == calls_of(old(out)@) + empty_texture_calls(
                color_id,
                width,
                height,
                RGBA16F,
                LINEAR,
                REPEAT,
            ) + empty_texture_calls(depth_id, width, height, DEPTH_COMPONENT24, NEAREST, CLAMP_TO_EDGE)
                + seq![
                GlCall::NamedFramebufferTexture {
                    framebuffer: framebuffer_id,
                    attachment: color_attachment(0),
                    texture: color_id,
                    level: 0,
                },
                GlCall::NamedFramebufferDrawBuffers { framebuffer: framebuffer_id, buffers: draw_buffer_list(1) },
                GlCall::NamedFramebufferTexture {
                    framebuffer: framebuffer_id,
                    attachment: DEPTH_ATTACHMENT,
                    texture: depth_id,
                    level: 0,
                },
            ],
    {
        let mut framebuffer = Framebuffer::new(framebuffer_id, width, height);
        let color = Texture2D::empty(out, color_id, width, height, RGBA16F, LINEAR, REPEAT);
        let depth = Texture2D::empty(out, depth_id, width, height, DEPTH_COMPONENT24, NEAREST, CLAMP_TO_EDGE);
        let ghost before = out@;
        framebuffer.add_color_attachment(out, color);
        framebuffer.set_depth_attachment(out, depth);
        assert(calls_of(out@) =~= calls_of(old(out)@) + empty_texture_calls(
            color_id,
            width,
            height,
            RGBA16F,
            LINEAR,
            REPEAT,
        ) + empty_texture_calls(depth_id, width, height, DEPTH_COMPONENT24, NEAREST, CLAMP_TO_EDGE)
            + seq![
            GlCall::NamedFramebufferTexture {
                framebuffer: framebuffer_id,
                attachment: color_attachment(0),
                texture: color_id,
                level: 0,
            },
            GlCall::NamedFramebufferDrawBuffers { framebuffer: framebuffer_id, buffers: draw_buffer_list(1) },
            GlCall::NamedFramebufferTexture {
                framebuffer: framebuffer_id,
                attachment: DEPTH_ATTACHMENT,
                texture: depth_id,
                level: 0,
            },
        ]);
        HdrPass { framebuffer }
    }

    /// Whether rendering at `width` x `height` needs the framebuffer resized.
    pub fn needs_resize(&self, width: u32, height: u32) -> (resize: bool)
        ensures
            resize == (self.framebuffer.width != width || self.framebuffer.height != height),
    {
        self.framebuffer.width != width || self.framebuffer.height != height
    }

    /// The calls that `begin` issues when given `names`.
    pub open spec fn begin_calls(&self, width: u32, height: u32, names: Seq<u32>) -> Seq<GlCall> {
        let fb = self.framebuffer;
        seq![
            GlCall::BindFramebuffer { target: FRAMEBUFFER, framebuffer: fb.id },
            GlCall::Viewport { x: 0, y: 0, width: fb.width as i32, height: fb.height as i32 },
        ] + (if fb.width != width || fb.height != height {
            fb.recreate_calls(width, height, names)
        } else {
            seq![]
        }) + clear_calls(width, height)
    }

    /// Starts the pass for a `width` x `height` target: binds the
    /// framebuffer, resizes it when the size changed (giving every
    /// attachment one of the fresh texture `names`), and clears it.
    pub fn begin(&mut self, out: &mut Vec<GlCommand>, width: u32, height: u32, names: &[u32])
        requires
            old(self).framebuffer.color@.len() <= max_color_attachments(),
            (old(self).framebuffer.width != width || old(self).framebuffer.height != height)
                ==> names@.len() == old(self).framebuffer.attachment_count(),
        ensures
            final(self).framebuffer.id == old(self).framebuffer.id,
            final(self).framebuffer.width == width,
            final(self).framebuffer.height == height,
            final(self).framebuffer.color@.len() == old(self).framebuffer.color@.len(),
            final(self).framebuffer.depth is Some == old(self).framebuffer.depth is Some,
            (old(self).framebuffer.width != width || old(self).framebuffer.height != height) ==> {
                &&& final(self).framebuffer.color@ == Seq::new(
                    old(self).framebuffer.color@.len(),
                    |i: int| recreated(old(self).framebuffer.color@[i], names@[i], width, height),
                )
                &&& final(self).framebuffer.depth == (match old(self).framebuffer.depth {
                    Some(d) => Some(
                        recreated(d, names@[old(self).framebuffer.color@.len() as int], width, height),
                    ),
                    None => None,
                })
            },
            old(self).wf() ==> final(self).wf(),
            !(old(self).framebuffer.width != width || old(self).framebuffer.height != height)
                ==> *final(self) == *old(self),
            calls_of(final(out)@) == calls_of(old(out)@) + old(self).begin_calls(width, height, names@),
    {
        self.framebuffer.bind(out);
        if self.framebuffer.width != width || self.framebuffer.height != height {
            self.framebuffer.recreate(out, width, height, names);
        }
        emit(out, GlCommand::Viewport { x: 0, y: 0, width: width as i32, height: height as i32 });
        emit(out, GlCommand::ClearColor { red: 0, green: 0, blue: 0, alpha: ONE_F32_BITS });
        emit(out, GlCommand::Clear { mask: COLOR_BUFFER_BIT | DEPTH_BUFFER_BIT });
        assert(calls_of(out@) =~= calls_of(old(out)@) + old(self).begin_calls(width, height, names@));
    }

    /// Ends the pass: rendering goes to the default framebuffer again.
    pub fn end(&mut self, out: &mut Vec<GlCommand>)
        ensures
            *final(self) == *old(self),
            calls_of(final(out)@) == calls_of(old(out)@).push(
                GlCall::BindFramebuffer { target: FRAMEBUFFER, framebuffer: 0 },
            ),
    {
        self.framebuffer.unbind(out);
    }
}

/// Beginning the pass at the size it already has keeps every attachment:
/// the pass is only bound and cleared.
pub proof fn law_begin_at_current_size_only_clears(pass: HdrPass, names: Seq<u32>)
    ensures
        pass.begin_calls(pass.framebuffer.width, pass.framebuffer.height, names) == seq![
            GlCall::BindFramebuffer { target: FRAMEBUFFER, framebuffer: pass.framebuffer.id },
            GlCall::Viewport {
                x: 0,
                y: 0,
                width: pass.framebuffer.width as i32,
                height: pass.framebuffer.height as i32,
            },
        ] + clear_calls(pass.framebuffer.width, pass.framebuffer.height),
{
    let fb = pass.framebuffer;
    assert(seq![
        GlCall::BindFramebuffer { target: FRAMEBUFFER, framebuffer: fb.id },
        GlCall::Viewport { x: 0, y: 0, width: fb.width as i32, height: fb.height as i32 },
    ] + Seq::<GlCall>::empty() =~= seq![
        GlCall::BindFramebuffer { target: FRAMEBUFFER, framebuffer: fb.id },
        GlCall::Viewport { x: 0, y: 0, width: fb.width as i32, height: fb.height as i32 },
    ]);
}

/// Beginning the pass at a size that differs from the framebuffer's, in
/// width or in height, recreates every attachment at the new size before
/// clearing: the old colour and depth textures are deleted, fresh storage
/// is allocated under `names` (colour first, then depth) at `width` x
/// `height` in each attachment's format, and each is attached again.
pub proof fn law_begin_at_new_size_recreates_attachments(pass: HdrPass, width: u32, height: u32, names: Seq<u32>)
    requires
        pass.wf(),
        pass.framebuffer.width != width || pass.framebuffer.height != height,
        names.len() == 2,
    ensures
        ({
            let fb = pass.framebuffer;
            let color = fb.color@[0];
            let depth = fb.depth->0;
            pass.begin_calls(width, height, names) == seq![
                GlCall::BindFramebuffer { target: FRAMEBUFFER, framebuffer: fb.id },
                GlCall::Viewport { x: 0, y: 0, width: fb.width as i32, height: fb.height as i32 },
                GlCall::DeleteTexture { texture: color.id },
                GlCall::TextureStorage2D {
                    texture: names[0],
                    levels: 1,
                    internal_format: color.internal_format,
                    width: width as i32,
                    height: height as i32,
                },
                GlCall::NamedFramebufferTexture {
                    framebuffer: fb.id,
                    attachment: COLOR_ATTACHMENT0,
                    texture: names[0],
                    level: 0,
                },
                GlCall::DeleteTexture { texture: depth.id },
                GlCall::TextureStorage2D {
                    texture: names[1],
                    levels: 1,
                    internal_format: depth.internal_format,
                    width: width as i32,
                    height: height as i32,
                },
                GlCall::NamedFramebufferTexture {
                    framebuffer: fb.id,
                    attachment: DEPTH_ATTACHMENT,
                    texture: names[1],
                    level: 0,
                },
            ] + clear_calls(width, height)
        }),
{
    let fb = pass.framebuffer;
    assert(color_recreate_calls(fb.id, fb.color@, names, width, height, 0) =~= Seq::<GlCall>::empty());
    assert(pass.begin_calls(width, height, names) =~= seq![
        GlCall::BindFramebuffer { target: FRAMEBUFFER, framebuffer: fb.id },
        GlCall::Viewport { x: 0, y: 0, width: fb.width as i32, height: fb.height as i32 },
        GlCall::DeleteTexture { texture: fb.color@[0].id },
        GlCall::TextureStorage2D {
            texture: names[0],
            levels: 1,
            internal_format: fb.color@[0].internal_format,
            width: width as i32,
            height: height as i32,
        },
        GlCall::NamedFramebufferTexture {
            framebuffer: fb.id,
            attachment: COLOR_ATTACHMENT0,
            texture: names[0],
            level: 0,
        },
        GlCall::DeleteTexture { texture: fb.depth->0.id },
        GlCall::TextureStorage2D {
            texture: names[1],
            levels: 1,
            internal_format: fb.depth->0.internal_format,
            width: width as i32,
            height: height as i32,
        },
        GlCall::NamedFramebufferTexture {
            framebuffer: fb.id,
            attachment: DEPTH_ATTACHMENT,
            texture: names[1],
            level: 0,
        },
    ] + clear_calls(width, height));
}

} // verus!
