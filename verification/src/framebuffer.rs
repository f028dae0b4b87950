//! Framebuffer objects with their colour and depth attachments.

use vstd::prelude::*;

use crate::command::{calls_of, emit, GlCall, GlCommand};
use crate::gl_enums::{COLOR_ATTACHMENT0, DEPTH_ATTACHMENT, FRAMEBUFFER};
use crate::texture::{recreate_calls, Texture2D};

verus! {

/// The most colour attachments whose attachment points (counted up from
/// `GL_COLOR_ATTACHMENT0`) are representable as `u32`.
pub open spec fn max_color_attachments() -> nat {
    (u32::MAX - COLOR_ATTACHMENT0) as nat
}

/// The attachment point of colour attachment `i`.
pub open spec fn color_attachment(i: int) -> u32 {
    (COLOR_ATTACHMENT0 + i) as u32
}

/// The draw-buffer list that routes fragment outputs 0..n to colour
/// attachments 0..n.
pub open spec fn draw_buffer_list(n: nat) -> Seq<u32> {
    Seq::new(n, |i: int| color_attachment(i))
}

/// `t` with new storage of `width` x `height` under the name `new_id`.
pub open spec fn recreated(t: Texture2D, new_id: u32, width: u32, height: u32) -> Texture2D {
    Texture2D { id: new_id, width: width as i32, height: height as i32, ..t }
}

/// The calls that recreate colour attachments `0..n` of `colors` under
/// `names` and attach them again.
pub open spec fn color_recreate_calls(
    framebuffer: u32,
    colors: Seq<Texture2D>,
    names: Seq<u32>,
    width: u32,
    height: u32,
    n: nat,
) -> Seq<GlCall>
    decreases n,
{
    if n == 0 {
        seq![]
    } else {
        let i = n - 1;
        color_recreate_calls(framebuffer, colors, names, width, height, (n - 1) as nat)
            + recreate_calls(colors[i].id, names[i], colors[i].internal_format, width, height)
            + seq![
            GlCall::NamedFramebufferTexture {
                framebuffer,
                attachment: color_attachment(i),
                texture: names[i],
                level: 0,
            },
        ]
    }
}

/// A GL framebuffer object with its size and attachments.
pub struct Framebuffer {
    pub id: u32,
    pub width: u32,
    pub height: u32,
    pub color: Vec<Texture2D>,
    pub depth: Option<Texture2D>,
}

impl Framebuffer {
    /// The number of textures attached (colour attachments, then depth).
    pub open spec fn attachment_count(&self) -> nat {
        self.color@.len() + if self.depth is Some { 1nat } else { 0nat }
    }

    /// The calls that `recreate` issues when given `names`.
    pub open spec fn recreate_calls(&self, width: u32, height: u32, names: Seq<u32>) -> Seq<GlCall> {
        let n = self.color@.len();
        color_recreate_calls(self.id, self.color@, names, width, height, n) + match self.depth {
            Some(d) => recreate_calls(d.id, names[n as int], d.internal_format, width, height) + seq![
                GlCall::NamedFramebufferTexture {
                    framebuffer: self.id,
                    attachment: DEPTH_ATTACHMENT,
                    texture: names[n as int],
                    level: 0,
                },
            ],
            None => seq![],
        }
    }

    /// A framebuffer named `id` of the given size, with no attachments.
    pub fn new(id: u32, width: u32, height: u32) -> (fb: Self)
        ensures
            fb.id == id,
            fb.width == width,
            fb.height == height,
            fb.color@ == Seq::<Texture2D>::empty(),
            fb.depth is None,
    {
        Framebuffer { id, width, height, color: Vec::new(), depth: None }
    }

    /// Makes this framebuffer the render target, with a viewport covering it.
    pub fn bind(&self, out: &mut Vec<GlCommand>)
        ensures
            calls_of(final(out)@) == calls_of(old(out)@) + seq![
                GlCall::BindFramebuffer { target: FRAMEBUFFER, framebuffer: self.id },
                GlCall::Viewport { x: 0, y: 0, width: self.width as i32, height: self.height as i32 },
            ],
    {
        emit(out, GlCommand::BindFramebuffer { target: FRAMEBUFFER, framebuffer: self.id });
        emit(out, GlCommand::Viewport { x: 0, y: 0, width: self.width as i32, height: self.height as i32 });
        assert(calls_of(out@) =~= calls_of(old(out)@) + seq![
            GlCall::BindFramebuffer { target: FRAMEBUFFER, framebuffer: self.id },
            GlCall::Viewport { x: 0, y: 0, width: self.width as i32, height: self.height as i32 },
        ]);
    }

    /// Makes the default framebuffer the render target again.
    pub fn unbind(&self, out: &mut Vec<GlCommand>)
        ensures
            calls_of(final(out)@) == calls_of(old(out)@).push(
                GlCall::BindFramebuffer { target: FRAMEBUFFER, framebuffer: 0 },
            ),
    {
        emit(out, GlCommand::BindFramebuffer { target: FRAMEBUFFER, framebuffer: 0 });
    }

    /// Attaches `texture` as the next colour attachment and routes the
    /// fragment outputs to all colour attachments, in order.
    pub fn add_color_attachment(&mut self, out: &mut Vec<GlCommand>, texture: Texture2D)
        requires
            old(self).color@.len() < max_color_attachments(),
        ensures
            final(self).id == old(self).id,
            final(self).width == old(self).width,
            final(self).height == old(self).height,
            final(self).depth == old(self).depth,
            final(self).color@ == old(self).color@.push(texture),
            calls_of(final(out)@) == calls_of(old(out)@) + seq![
                GlCall::NamedFramebufferTexture {
                    framebuffer: old(self).id,
                    attachment: color_attachment(old(self).color@.len() as int),
                    texture: texture.id,
                    level: 0,
                },
                GlCall::NamedFramebufferDrawBuffers {
                    framebuffer: old(self).id,
                    buffers: draw_buffer_list(old(self).color@.len() + 1),
                },
            ],
    {
        let index = self.color.len() as u32;
        emit(
            out,
            GlCommand::NamedFramebufferTexture {
                framebuffer: self.id,
                attachment: COLOR_ATTACHMENT0 + index,
                texture: texture.id,
                level: 0,
            },
        );
        self.color.push(texture);
        let count = self.color.len();
        let mut attachments: Vec<u32> = Vec::new();
        let mut i: usize = 0;
        while i < count
            invariant
                count == self.color@.len(),
                count <= max_color_attachments(),
                i <= count,
                attachments@ == draw_buffer_list(i as nat),
            decreases count - i,
        {
            attachments.push(COLOR_ATTACHMENT0 + i as u32);
            i = i + 1;
            assert(attachments@ =~= draw_buffer_list(i as nat));
        }
        let ghost buffers = attachments@;
        emit(out, GlCommand::NamedFramebufferDrawBuffers { framebuffer: self.id, buffers: attachments });
        assert(calls_of(out@) =~= calls_of(old(out)@) + seq![
            GlCall::NamedFramebufferTexture {
                framebuffer: old(self).id,
                attachment: color_attachment(old(self).color@.len() as int),
                texture: texture.id,
                level: 0,
            },
            GlCall::NamedFramebufferDrawBuffers {
                framebuffer: old(self).id,
                buffers: draw_buffer_list(old(self).color@.len() + 1),
            },
        ]);
    }

    /// Attaches `texture` as the depth attachment.
    pub fn set_depth_attachment(&mut self, out: &mut Vec<GlCommand>, texture: Texture2D)
        ensures
            final(self).id == old(self).id,
            final(self).width == old(self).width,
            final(self).height == old(self).height,
            final(self).color@ == old(self).color@,
            final(self).depth == Some(texture),
            calls_of(final(out)@) == calls_of(old(out)@).push(
                GlCall::NamedFramebufferTexture {
                    framebuffer: old(self).id,
                    attachment: DEPTH_ATTACHMENT,
                    texture: texture.id,
                    level: 0,
                },
            ),
    {
        emit(
            out,
            GlCommand::NamedFramebufferTexture {
                framebuffer: self.id,
                attachment: DEPTH_ATTACHMENT,
                texture: texture.id,
                level: 0,
            },
        );
        self.depth = Some(texture);
    }

    /// Resizes the framebuffer: every attachment gets new storage of the new
    /// size (see `Texture2D::recreate`) and is attached again.  `names` holds
    /// a fresh texture name per attachment: colour attachments in order,
    /// then the depth attachment.
    pub fn recreate(&mut self, out: &mut Vec<GlCommand>, width: u32, height: u32, names: &[u32])
        requires
            old(self).color@.len() <= max_color_attachments(),
            names@.len() == old(self).attachment_count(),
        ensures
            final(self).id == old(self).id,
            final(self).width == width,
            final(self).height == height,
            final(self).color@ == Seq::new(
                old(self).color@.len(),
                |i: int| recreated(old(self).color@[i], names@[i], width, height),
            ),
            final(self).depth == (match old(self).depth {
                Some(d) => Some(recreated(d, names@[old(self).color@.len() as int], width, height)),
                None => None,
            }),
            calls_of(final(out)@) == calls_of(old(out)@) + old(self).recreate_calls(width, height, names@),
    {
        self.width = width;
        self.height = height;
        let n = self.color.len();
        let mut i: usize = 0;
        while i < n
            invariant
                n == old(self).color@.len(),
                n <= max_color_attachments(),
                names@.len() == old(self).attachment_count(),
                i <= n,
                self.id == old(self).id,
                self.width == width,
                self.height == height,
                self.depth == old(self).depth,
                self.color@.len() == n,
                forall|k: int| 0 <= k < i ==> self.color@[k] == recreated(old(self).color@[k], names@[k], width, height),
                forall|k: int| i <= k < n ==> self.color@[k] == old(self).color@[k],
                calls_of(out@) == calls_of(old(out)@) + color_recreate_calls(
                    old(self).id,
                    old(self).color@,
                    names@,
                    width,
                    height,
                    i as nat,
                ),
            decreases n - i,
        {
            let mut tex = self.color[i];
            tex.recreate(out, names[i], width, height);
            emit(
                out,
                GlCommand::NamedFramebufferTexture {
                    framebuffer: self.id,
                    attachment: COLOR_ATTACHMENT0 + i as u32,
                    texture: tex.id,
                    level: 0,
                },
            );
            self.color.set(i, tex);
            i = i + 1;
            assert(calls_of(out@) =~= calls_of(old(out)@) + color_recreate_calls(
                old(self).id,
                old(self).color@,
                names@,
                width,
                height,
                i as nat,
            ));
        }
        assert(self.color@ =~= Seq::new(
            old(self).color@.len(),
            |k: int| recreated(old(self).color@[k], names@[k], width, height),
        ));
        match self.depth {
            Some(d) => {
                let mut tex = d;
                tex.recreate(out, names[n], width, height);
                emit(
                    out,
                    GlCommand::NamedFramebufferTexture {
                        framebuffer: self.id,
                        attachment: DEPTH_ATTACHMENT,
                        texture: tex.id,
                        level: 0,
                    },
                );
                self.depth = Some(tex);
            },
            None => {},
        }
        assert(calls_of(out@) =~= calls_of(old(out)@) + old(self).recreate_calls(width, height, names@));
    }
}

} // verus!
