//! Cube-map textures and the capture of cube-map faces.

use vstd::arithmetic::power2::{lemma2_to64, lemma_pow2_unfold, pow2};
use vstd::prelude::*;

use crate::command::{calls_of, emit, GlCall, GlCommand};
use crate::framebuffer::Framebuffer;
use crate::gl_enums::{
    CLAMP_TO_EDGE, COLOR_BUFFER_BIT, CULL_FACE, FRAMEBUFFER, LINEAR, LINEAR_MIPMAP_LINEAR, TEXTURE_2D,
    TEXTURE_CUBE_MAP, TEXTURE_MAG_FILTER, TEXTURE_MIN_FILTER, TEXTURE_WRAP_R, TEXTURE_WRAP_S,
    TEXTURE_WRAP_T,
};
use crate::hdr_pass::ONE_F32_BITS;
use crate::mesh::LightCube;
use crate::shader::Shader;
use crate::texture::Texture2D;
use vstd::slice::slice_to_vec;

verus! {

/// The number of levels of a full mipmap chain for a `size` x `size` base
/// level: halving down to 1 texel, i.e. `floor(log2(size)) + 1` (and 0 for
/// an empty base level).
pub open spec fn full_mip_levels(size: nat) -> nat
    decreases size,
{
    if size == 0 {
        0
    } else {
        1 + full_mip_levels(size / 2)
    }
}

/// A full mipmap chain of a non-empty texture has `L` levels exactly when
/// `2^(L-1) <= size < 2^L`: the count is `floor(log2(size)) + 1`.
pub proof fn lemma_full_mip_levels_span(size: nat)
    requires
        size >= 1,
    ensures
        pow2((full_mip_levels(size) - 1) as nat) <= size < pow2(full_mip_levels(size)),
    decreases size,
{
    lemma2_to64();
    if size == 1 {
        assert(full_mip_levels(1) == 1 + full_mip_levels(0));
    } else {
        let h = size / 2;
        lemma_full_mip_levels_span(h);
        let lh = full_mip_levels(h);
        assert(full_mip_levels(size) == 1 + lh);
        lemma_pow2_unfold(lh + 1);
        assert(lh >= 1);
        lemma_pow2_unfold(lh);
        assert(pow2((lh + 1) as nat) == 2 * pow2(lh));
        assert(pow2(lh) == 2 * pow2((lh - 1) as nat));
    }
}

/// A size below `2^k` has a chain of at most `k` levels.
pub proof fn lemma_full_mip_levels_bound(size: nat, k: nat)
    requires
        size < pow2(k),
    ensures
        full_mip_levels(size) <= k,
    decreases k,
{
    lemma2_to64();
    if size > 0 {
        assert(k > 0);
        lemma_pow2_unfold(k);
        lemma_full_mip_levels_bound(size / 2, (k - 1) as nat);
    }
}

/// The level count that a mipmapped texture of `size` is allocated with:
/// `floor(log2(size)) + 1`, the length of its full chain; for size 0 the
/// logarithm is minus infinity, which saturates to `i32::MIN`, so the count
/// is `i32::MIN + 1` (and GL refuses the allocation).
pub open spec fn mip_levels_of(size: u32) -> i32 {
    if size == 0 {
        -2147483647i32
    } else {
        full_mip_levels(size as nat) as i32
    }
}

/// Counts the levels of a full mipmap chain for `size` (see
/// `mip_levels_of`).
pub fn mip_level_count(size: u32) -> (levels: i32)
    ensures
        levels == mip_levels_of(size),
{
    if size == 0 {
        return -2147483647;
    }
    proof {
        lemma2_to64();
        lemma_full_mip_levels_bound(size as nat, 32);
    }
    let mut levels: i32 = 0;
    let mut s: u32 = size;
    while s > 0
        invariant
            levels as nat + full_mip_levels(s as nat) == full_mip_levels(size as nat),
            full_mip_levels(size as nat) <= 32,
            0 <= levels,
        decreases s,
    {
        assert(full_mip_levels(s as nat) == 1 + full_mip_levels((s / 2) as nat));
        s = s / 2;
        levels = levels + 1;
    }
    levels
}

/// The calls that allocate a cube map (and build its mipmap chain when
/// `mipmapped`).
pub open spec fn empty_cube_calls(texture: u32, size: u32, internal_format: u32, mipmapped: bool) -> Seq<
    GlCall,
> {
    seq![
        GlCall::TextureStorage2D {
            texture,
            levels: if mipmapped { mip_levels_of(size) } else { 1 },
            internal_format,
            width: size as i32,
            height: size as i32,
        },
        GlCall::TextureParameteri {
            texture,
            pname: TEXTURE_MIN_FILTER,
            param: if mipmapped { LINEAR_MIPMAP_LINEAR as i32 } else { LINEAR as i32 },
        },
        GlCall::TextureParameteri { texture, pname: TEXTURE_MAG_FILTER, param: LINEAR as i32 },
        GlCall::TextureParameteri { texture, pname: TEXTURE_WRAP_S, param: CLAMP_TO_EDGE as i32 },
        GlCall::TextureParameteri { texture, pname: TEXTURE_WRAP_T, param: CLAMP_TO_EDGE as i32 },
        GlCall::TextureParameteri { texture, pname: TEXTURE_WRAP_R, param: CLAMP_TO_EDGE as i32 },
    ] + if mipmapped {
        seq![GlCall::GenerateTextureMipmap { texture }]
    } else {
        seq![]
    }
}

/// A GL cube-map texture of `size` x `size` faces.
#[derive(Clone, Copy, PartialEq, Eq, Structural, Debug)]
pub struct TextureCube {
    pub id: u32,
    pub size: u32,
    pub internal_format: u32,
}

impl TextureCube {
    /// Allocates a cube map named `id` (clamped, linear; with a full
    /// trilinear mipmap chain when `mipmapped`).
    pub fn empty(out: &mut Vec<GlCommand>, id: u32, size: u32, internal_format: u32, mipmapped: bool) -> (cube: Self)
        ensures
            cube == (TextureCube { id, size, internal_format }),
            calls_of(final(out)@) == calls_of(old(out)@) + empty_cube_calls(id, size, internal_format, mipmapped),
    {
        let levels: i32 = if mipmapped { mip_level_count(size) } else { 1 };
        emit(
            out,
            GlCommand::TextureStorage2D {
                texture: id,
                levels,
                internal_format,
                width: size as i32,
                height: size as i32,
            },
        );
        let min_filter: i32 = if mipmapped { LINEAR_MIPMAP_LINEAR as i32 } else { LINEAR as i32 };
        emit(out, GlCommand::TextureParameteri { texture: id, pname: TEXTURE_MIN_FILTER, param: min_filter });
        emit(out, GlCommand::TextureParameteri { texture: id, pname: TEXTURE_MAG_FILTER, param: LINEAR as i32 });
        emit(
            out,
            GlCommand::TextureParameteri { texture: id, pname: TEXTURE_WRAP_S, param: CLAMP_TO_EDGE as i32 },
        );
        emit(
            out,
            GlCommand::TextureParameteri { texture: id, pname: TEXTURE_WRAP_T, param: CLAMP_TO_EDGE as i32 },
        );
        emit(
            out,
            GlCommand::TextureParameteri { texture: id, pname: TEXTURE_WRAP_R, param: CLAMP_TO_EDGE as i32 },
        );
        if mipmapped {
            emit(out, GlCommand::GenerateTextureMipmap { texture: id });
        }
        assert(calls_of(out@) =~= calls_of(old(out)@) + empty_cube_calls(id, size, internal_format, mipmapped));
        TextureCube { id, size, internal_format }
    }

    /// Bind `self` to texture unit `unit`.
    pub fn bind(&self, out: &mut Vec<GlCommand>, unit: u32)
        ensures
            calls_of(final(out)@) == calls_of(old(out)@).push(
                GlCall::BindTextureUnit { unit, texture: self.id },
            ),
    {
        emit(out, GlCommand::BindTextureUnit { unit, texture: self.id });
    }

    /// The calls that prepare rendering into the faces (see `begin_capture`).
    pub open spec fn begin_capture_calls(&self, source: Texture2D, framebuffer: Framebuffer) -> Seq<GlCall> {
        seq![
            GlCall::BindTextureUnit { unit: 0, texture: source.id },
            GlCall::BindFramebuffer { target: FRAMEBUFFER, framebuffer: framebuffer.id },
            GlCall::Viewport { x: 0, y: 0, width: framebuffer.width as i32, height: framebuffer.height as i32 },
            GlCall::Viewport { x: 0, y: 0, width: self.size as i32, height: self.size as i32 },
            GlCall::Disable { capability: CULL_FACE },
            GlCall::ClearColor { red: 0, green: 0, blue: 0, alpha: ONE_F32_BITS },
        ]
    }

    /// Prepares rendering into the faces: `source` goes to unit 0, the
    /// capture `framebuffer` becomes the target with a face-sized viewport,
    /// face culling is switched off and the clear colour set to opaque black.
    pub fn begin_capture(&self, out: &mut Vec<GlCommand>, source: &Texture2D, framebuffer: &Framebuffer)
        ensures
            calls_of(final(out)@) == calls_of(old(out)@) + self.begin_capture_calls(*source, *framebuffer),
    {
        source.bind(out, 0);
        framebuffer.bind(out);
        emit(out, GlCommand::Viewport { x: 0, y: 0, width: self.size as i32, height: self.size as i32 });
        emit(out, GlCommand::Disable { capability: CULL_FACE });
        emit(out, GlCommand::ClearColor { red: 0, green: 0, blue: 0, alpha: ONE_F32_BITS });
        assert(calls_of(out@) =~= calls_of(old(out)@) + self.begin_capture_calls(*source, *framebuffer));
    }

    /// The calls that render one face: the target is cleared, `cube` is
    /// drawn (with the face's view already set), and the rendered `target`
    /// texture is copied into face `face` of level 0.
    pub open spec fn capture_face_calls(&self, target: Texture2D, cube: LightCube, face: u32) -> Seq<GlCall> {
        seq![
            GlCall::ClearColor { red: 0, green: 0, blue: 0, alpha: ONE_F32_BITS },
            GlCall::Clear { mask: COLOR_BUFFER_BIT },
        ] + cube.draw_calls() + seq![
            GlCall::CopyImageSubData {
                src_name: target.id,
                src_target: TEXTURE_2D,
                src_level: 0,
                src_x: 0,
                src_y: 0,
                src_z: 0,
                dst_name: self.id,
                dst_target: TEXTURE_CUBE_MAP,
                dst_level: 0,
                dst_x: 0,
                dst_y: 0,
                dst_z: face as i32,
                width: self.size as i32,
                height: self.size as i32,
                depth: 1,
            },
        ]
    }

    /// Renders face `face` (0 to 5) of the cube map (see `capture_face_calls`).
    pub fn capture_face(&self, out: &mut Vec<GlCommand>, target: &Texture2D, cube: &LightCube, face: u32)
        requires
            face < 6,
        ensures
            calls_of(final(out)@) == calls_of(old(out)@) + self.capture_face_calls(*target, *cube, face),
    {
        emit(out, GlCommand::ClearColor { red: 0, green: 0, blue: 0, alpha: ONE_F32_BITS });
        emit(out, GlCommand::Clear { mask: COLOR_BUFFER_BIT });
        cube.draw(out);
        emit(
            out,
            GlCommand::CopyImageSubData {
                src_name: target.id,
                src_target: TEXTURE_2D,
                src_level: 0,
                src_x: 0,
                src_y: 0,
                src_z: 0,
                dst_name: self.id,
                dst_target: TEXTURE_CUBE_MAP,
                dst_level: 0,
                dst_x: 0,
                dst_y: 0,
                dst_z: face as i32,
                width: self.size as i32,
                height: self.size as i32,
                depth: 1,
            },
        );
        assert(calls_of(out@) =~= calls_of(old(out)@) + self.capture_face_calls(*target, *cube, face));
    }

    /// Ends the capture: face culling is restored and the mipmap chain is
    /// built from the captured faces.
    pub fn finish_capture(&self, out: &mut Vec<GlCommand>)
        ensures
            calls_of(final(out)@) == calls_of(old(out)@) + seq![
                GlCall::Enable { capability: CULL_FACE },
                GlCall::GenerateTextureMipmap { texture: self.id },
            ],
    {
        emit(out, GlCommand::Enable { capability: CULL_FACE });
        emit(out, GlCommand::GenerateTextureMipmap { texture: self.id });
        assert(calls_of(out@) =~= calls_of(old(out)@) + seq![
            GlCall::Enable { capability: CULL_FACE },
            GlCall::GenerateTextureMipmap { texture: self.id },
        ]);
    }

    /// The calls that render the first `n` faces, each after setting the
    /// `view` uniform of `program` to its view matrix in `views`.
    pub open spec fn faces_calls(
        &self,
        program: u32,
        target: Texture2D,
        cube: LightCube,
        views: Seq<Seq<u32>>,
        n: nat,
    ) -> Seq<GlCall>
        decreases n,
    {
        if n == 0 {
            seq![]
        } else {
            self.faces_calls(program, target, cube, views, (n - 1) as nat) + seq![
                GlCall::SetUniformMatrix4 { program, name: "view"@, columns: views[n - 1] },
            ] + self.capture_face_calls(target, cube, (n - 1) as u32)
        }
    }

    /// The calls that render an equirectangular `source` image into the
    /// six faces (see `capture_equirectangular`).
    pub open spec fn capture_calls(
        &self,
        program: u32,
        source: Texture2D,
        framebuffer: Framebuffer,
        target: Texture2D,
        cube: LightCube,
        projection: Seq<u32>,
        views: Seq<Seq<u32>>,
    ) -> Seq<GlCall> {
        seq![
            GlCall::UseProgram { program },
            GlCall::SetUniformInt { program, name: "equirectangularMap"@, value: 0 },
            GlCall::SetUniformMatrix4 { program, name: "projection"@, columns: projection },
        ] + self.begin_capture_calls(source, framebuffer) + self.faces_calls(
            program,
            target,
            cube,
            views,
            6,
        ) + seq![
            GlCall::Enable { capability: CULL_FACE },
            GlCall::GenerateTextureMipmap { texture: self.id },
        ]
    }

    /// Renders the equirectangular image `source` into the six faces and
    /// builds the mipmap chain: `program` (the equirectangular-to-cube
    /// shader) gets the image on unit 0 and the `projection` matrix; for
    /// each face in turn its matrix of `views` is set and the face captured
    /// through `framebuffer`, whose colour target is `target`.  Matrices are
    /// column-major `f32` bit patterns.
    pub fn capture_equirectangular(
        &self,
        out: &mut Vec<GlCommand>,
        program: &Shader,
        source: &Texture2D,
        framebuffer: &Framebuffer,
        target: &Texture2D,
        cube: &LightCube,
        projection: &[u32],
        views: &[Vec<u32>],
    )
        requires
            views@.len() == 6,
        ensures
            calls_of(final(out)@) == calls_of(old(out)@) + self.capture_calls(
                program.id,
                *source,
                *framebuffer,
                *target,
                *cube,
                projection@,
                views@.map_values(|v: Vec<u32>| v@),
            ),
    {
        let ghost view_words = views@.map_values(|v: Vec<u32>| v@);
        program.bind(out);
        emit(out, GlCommand::SetUniformInt { program: program.id, name: "equirectangularMap".to_owned(), value: 0 });
        emit(
            out,
            GlCommand::SetUniformMatrix4 {
                program: program.id,
                name: "projection".to_owned(),
                columns: slice_to_vec(projection),
            },
        );
        self.begin_capture(out, source, framebuffer);
        let ghost before_faces = out@;
        let mut face: u32 = 0;
        while face < 6
            invariant
                face <= 6,
                views@.len() == 6,
                view_words == views@.map_values(|v: Vec<u32>| v@),
                calls_of(out@) == calls_of(before_faces) + self.faces_calls(
                    program.id,
                    *target,
                    *cube,
                    view_words,
                    face as nat,
                ),
            decreases 6 - face,
        {
            let ghost mid = out@;
            emit(
                out,
                GlCommand::SetUniformMatrix4 {
                    program: program.id,
                    name: "view".to_owned(),
                    columns: slice_to_vec(views[face as usize].as_slice()),
                },
            );
            self.capture_face(out, target, cube, face);
            assert(view_words[face as int] == views@[face as int]@);
            assert(calls_of(out@) =~= calls_of(before_faces) + self.faces_calls(
                program.id,
                *target,
                *cube,
                view_words,
                (face + 1) as nat,
            ));
            face = face + 1;
        }
        self.finish_capture(out);
        assert(calls_of(out@) =~= calls_of(old(out)@) + self.capture_calls(
            program.id,
            *source,
            *framebuffer,
            *target,
            *cube,
            projection@,
            view_words,
        ));
    }
}

} // verus!
