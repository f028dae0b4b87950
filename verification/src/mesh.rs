//! Meshes: a vertex array with its buffers and material textures, plus the
//! fullscreen quad and the small cube used for skyboxes and light markers.
//!
//! Vertex data is handled as 32-bit words; for the built-in shapes the words
//! are the IEEE-754 single-precision bit patterns of the coordinates.

use vstd::prelude::*;
use vstd::slice::slice_to_vec;

use crate::buffer::Buffer;
use crate::command::{calls_of, emit, GlCall, GlCommand};
use crate::gl_enums::{STATIC_DRAW, TRIANGLES, TRIANGLE_STRIP, UNSIGNED_INT};
use crate::texture::{
    default_textures_calls, file_texture, internal_format_named, DefaultTextures, ImageFile, Texture2D,
};
use crate::vao::{enable_attribute_calls, VertexArray};

verus! {

/// Words per vertex of the standard layout: position (3), normal (3),
/// tangent with handedness (4) and texture coordinates (2).
pub const VERTEX_WORDS: usize = 12;

/// Size in bytes of one vertex component.
pub const COMPONENT_BYTES: usize = 4;

/// The calls that describe the standard vertex layout of `vbo` to `vao`.
pub open spec fn standard_layout_calls(vao: u32, vbo: u32) -> Seq<GlCall> {
    seq![
        GlCall::VertexArrayVertexBuffer {
            vao,
            binding_index: 0,
            buffer: vbo,
            offset: 0,
            stride: (VERTEX_WORDS * COMPONENT_BYTES) as i32,
        },
    ] + enable_attribute_calls(vao, 0, 3, 0, 0) + enable_attribute_calls(
        vao,
        1,
        3,
        0,
        (3 * COMPONENT_BYTES) as usize,
    ) + enable_attribute_calls(vao, 2, 4, 0, (6 * COMPONENT_BYTES) as usize)
        + enable_attribute_calls(vao, 3, 2, 0, (10 * COMPONENT_BYTES) as usize)
}

/// The number of vertices that `len` words of the standard layout make,
/// computed in `i32`: the length is cast with wrap-around, then divided
/// rounding toward zero.
pub open spec fn vertex_count_of(len: nat) -> i32 {
    let n = len as i32;
    if n >= 0 {
        (n / 12) as i32
    } else {
        (-((-n) / 12)) as i32
    }
}

/// The triangle of `Mesh::triangle`: apex (0, 0.5, 0) and base corners
/// (-0.5, -0.5, 0), (0.5, -0.5, 0), facing +Z, tangent +X.
pub open spec fn triangle_vertex_words() -> Seq<u32> {
    seq![
        0x0000_0000u32, 0x3F00_0000, 0x0000_0000, 0x0000_0000, 0x0000_0000, 0x3F80_0000,
        0x3F80_0000, 0x0000_0000, 0x0000_0000, 0x3F80_0000, 0x3F00_0000, 0x3F80_0000,
        0xBF00_0000, 0xBF00_0000, 0x0000_0000, 0x0000_0000, 0x0000_0000, 0x3F80_0000,
        0x3F80_0000, 0x0000_0000, 0x0000_0000, 0x3F80_0000, 0x0000_0000, 0x0000_0000,
        0x3F00_0000, 0xBF00_0000, 0x0000_0000, 0x0000_0000, 0x0000_0000, 0x3F80_0000,
        0x3F80_0000, 0x0000_0000, 0x0000_0000, 0x3F80_0000, 0x3F80_0000, 0x0000_0000,
    ]
}

/// Positions and texture coordinates of the fullscreen quad (a triangle
/// strip over clip space).
pub open spec fn quad_vertex_words() -> Seq<u32> {
    seq![
        0xBF80_0000u32, 0x3F80_0000, 0x0000_0000, 0x3F80_0000,
        0xBF80_0000, 0xBF80_0000, 0x0000_0000, 0x0000_0000,
        0x3F80_0000, 0x3F80_0000, 0x3F80_0000, 0x3F80_0000,
        0x3F80_0000, 0xBF80_0000, 0x3F80_0000, 0x0000_0000,
    ]
}

/// The eight corners of the cube of half-side 0.1 around the origin.
pub open spec fn cube_vertex_words() -> Seq<u32> {
    seq![
        0xBDCC_CCCDu32, 0xBDCC_CCCD, 0xBDCC_CCCD,
        0x3DCC_CCCD, 0xBDCC_CCCD, 0xBDCC_CCCD,
        0x3DCC_CCCD, 0x3DCC_CCCD, 0xBDCC_CCCD,
        0xBDCC_CCCD, 0x3DCC_CCCD, 0xBDCC_CCCD,
        0xBDCC_CCCD, 0xBDCC_CCCD, 0x3DCC_CCCD,
        0x3DCC_CCCD, 0xBDCC_CCCD, 0x3DCC_CCCD,
        0x3DCC_CCCD, 0x3DCC_CCCD, 0x3DCC_CCCD,
        0xBDCC_CCCD, 0x3DCC_CCCD, 0x3DCC_CCCD,
    ]
}

/// Two triangles per face of the cube: back, front, left, right, top, bottom.
pub open spec fn cube_indices() -> Seq<u32> {
    seq![
        0u32, 2, 1, 0, 3, 2,
        4, 5, 6, 4, 6, 7,
        0, 7, 3, 0, 4, 7,
        1, 2, 6, 1, 6, 5,
        3, 7, 6, 3, 6, 2,
        0, 1, 5, 0, 5, 4,
    ]
}

fn emit_standard_layout(out: &mut Vec<GlCommand>, vao: &VertexArray, vbo: &Buffer)
    ensures
        calls_of(final(out)@) == calls_of(old(out)@) + standard_layout_calls(vao.id, vbo.id),
{
    vao.set_vertex_buffer(out, 0, vbo, 0, (VERTEX_WORDS * COMPONENT_BYTES) as i32);
    vao.enable_attribute(out, 0, 3, 0, 0);
    vao.enable_attribute(out, 1, 3, 0, 3 * COMPONENT_BYTES);
    vao.enable_attribute(out, 2, 4, 0, 6 * COMPONENT_BYTES);
    vao.enable_attribute(out, 3, 2, 0, 10 * COMPONENT_BYTES);
    assert(calls_of(out@) =~= calls_of(old(out)@) + standard_layout_calls(vao.id, vbo.id));
}

/// A drawable mesh of the standard vertex layout with its material maps.
/// The calls that `Mesh::new_manual` makes for the geometry: the vertex
/// words go to `vbo`, described in the standard layout, then the indices
/// (if any) go to their element buffer, which is attached to `vao`.
pub open spec fn manual_geometry_calls(
    vao: u32,
    vbo: u32,
    vertices: Seq<u32>,
    indices: Option<(u32, Seq<u32>)>,
) -> Seq<GlCall> {
    seq![GlCall::NamedBufferData { buffer: vbo, words: vertices, usage: STATIC_DRAW }]
        + standard_layout_calls(vao, vbo) + match indices {
        Some((ebo, idx)) => seq![
            GlCall::NamedBufferData { buffer: ebo, words: idx, usage: STATIC_DRAW },
            GlCall::VertexArrayElementBuffer { vao, buffer: ebo },
        ],
        None => Seq::empty(),
    }
}

/// One material slot: the texture loaded from `file` in the internal
/// format named `name`, with its calls, or `default` with no calls when no
/// file is given; `None` when the file does not decode.
pub open spec fn slot_texture(file: Option<ImageFile>, name: Seq<char>, default: Texture2D) -> Option<
    (Texture2D, Seq<GlCall>),
> {
    match file {
        Some(f) => file_texture(f.id, f.bytes@, f.ext@, name),
        None => Some((default, Seq::empty())),
    }
}

/// The albedo (sRGB), normal and ORM (linear) textures of a mesh, with the
/// calls that load them in that order; `None` when a file does not decode.
pub open spec fn material_textures(
    albedo: Option<ImageFile>,
    normal: Option<ImageFile>,
    orm: Option<ImageFile>,
    white: Texture2D,
    flat: Texture2D,
    black: Texture2D,
) -> Option<(Texture2D, Texture2D, Texture2D, Seq<GlCall>)> {
    match (
        slot_texture(albedo, "sRGB8_RGBA8"@, white),
        slot_texture(normal, "Linear_RGBA8"@, flat),
        slot_texture(orm, "Linear_RGBA8"@, black),
    ) {
        (Some((a, ca)), Some((n, cn)), Some((o, co))) => Some((a, n, o, ca + cn + co)),
        _ => None,
    }
}

fn load_slot(out: &mut Vec<GlCommand>, file: Option<ImageFile>, name: &str, default: Texture2D) -> (tex: Option<
    Texture2D,
>)
    requires
        internal_format_named(name@) is Some,
    ensures
        match slot_texture(file, name@, default) {
            Some((t, calls)) => tex == Some(t) && calls_of(final(out)@) == calls_of(old(out)@) + calls,
            None => tex is None,
        },
{
    match file {
        Some(f) => Texture2D::from_file_bytes(out, f.id, f.bytes.as_slice(), f.ext.as_str(), name),
        None => {
            assert(calls_of(out@) =~= calls_of(old(out)@) + Seq::<GlCall>::empty());
            Some(default)
        },
    }
}

pub struct Mesh {
    pub vao: VertexArray,
    pub vbo: Buffer,
    pub ebo: Option<Buffer>,
    pub index_count: i32,
    pub albedo: Texture2D,
    pub normal: Texture2D,
    pub orm: Texture2D,
}

impl Mesh {
    /// The calls that draw the mesh: its vertex array is bound, the albedo,
    /// normal and ORM maps go to units 0, 1 and 2, and its triangles are
    /// drawn indexed when it has an element buffer.
    pub open spec fn draw_calls(&self) -> Seq<GlCall> {
        seq![
            GlCall::BindVertexArray { vao: self.vao.id },
            GlCall::BindTextureUnit { unit: 0, texture: self.albedo.id },
            GlCall::BindTextureUnit { unit: 1, texture: self.normal.id },
            GlCall::BindTextureUnit { unit: 2, texture: self.orm.id },
            if self.ebo is Some {
                GlCall::DrawElements { mode: TRIANGLES, count: self.index_count, index_type: UNSIGNED_INT }
            } else {
                GlCall::DrawArrays { mode: TRIANGLES, first: 0, count: self.index_count }
            },
        ]
    }

    /// Builds an indexed mesh (as the model loader does): `vertices` in the
    /// standard layout go to `vbo`, `indices` to `ebo`.
    pub fn new(
        out: &mut Vec<GlCommand>,
        vao: VertexArray,
        vbo: Buffer,
        ebo: Buffer,
        vertices: &[u32],
        indices: &[u32],
        albedo: Texture2D,
        normal: Texture2D,
        orm: Texture2D,
    ) -> (mesh: Self)
        ensures
            mesh.vao == vao,
            mesh.vbo == vbo,
            mesh.ebo == Some(ebo),
            mesh.index_count == #[verifier::truncate] (indices@.len() as i32),
            mesh.albedo == albedo,
            mesh.normal == normal,
            mesh.orm == orm,
            calls_of(final(out)@) == calls_of(old(out)@) + seq![
                GlCall::NamedBufferData { buffer: vbo.id, words: vertices@, usage: STATIC_DRAW },
                GlCall::NamedBufferData { buffer: ebo.id, words: indices@, usage: STATIC_DRAW },
            ] + standard_layout_calls(vao.id, vbo.id) + seq![
                GlCall::VertexArrayElementBuffer { vao: vao.id, buffer: ebo.id },
            ],
    {
        vbo.upload(out, vertices, STATIC_DRAW);
        ebo.upload(out, indices, STATIC_DRAW);
        emit_standard_layout(out, &vao, &vbo);
        vao.set_element_buffer(out, &ebo);
        assert(calls_of(out@) =~= calls_of(old(out)@) + seq![
            GlCall::NamedBufferData { buffer: vbo.id, words: vertices@, usage: STATIC_DRAW },
            GlCall::NamedBufferData { buffer: ebo.id, words: indices@, usage: STATIC_DRAW },
        ] + standard_layout_calls(vao.id, vbo.id) + seq![
            GlCall::VertexArrayElementBuffer { vao: vao.id, buffer: ebo.id },
        ]);
        let index_count: i32 = #[verifier::truncate] (indices.len() as i32);
        Mesh { vao, vbo, ebo: Some(ebo), index_count, albedo, normal, orm }
    }

    /// Builds a mesh by hand: with `indices` (an element buffer and its
    /// contents) it is drawn indexed, without it every 12 words of
    /// `vertices` make one vertex.  Each supplied material map is loaded
    /// from its image file (albedo as sRGB, normal and ORM maps as linear
    /// RGBA8); a missing one is replaced by the matching default texture
    /// (white albedo, flat normal, black ORM).  `None`, with nothing issued,
    /// when a supplied file does not decode.
    pub fn new_manual(
        out: &mut Vec<GlCommand>,
        vao: VertexArray,
        vbo: Buffer,
        vertices: &[u32],
        indices: Option<(Buffer, &[u32])>,
        albedo: Option<ImageFile>,
        normal: Option<ImageFile>,
        orm: Option<ImageFile>,
        defaults: &DefaultTextures,
    ) -> (mesh: Option<Self>)
        ensures
            match material_textures(albedo, normal, orm, defaults.white, defaults.normal, defaults.black) {
                Some((a, n, o, texture_calls)) => {
                    &&& mesh matches Some(m)
                    &&& m.vao == vao
                    &&& m.vbo == vbo
                    &&& m.albedo == a
                    &&& m.normal == n
                    &&& m.orm == o
                    &&& match indices {
                        Some((ebo, idx)) => {
                            &&& m.ebo == Some(ebo)
                            &&& m.index_count == #[verifier::truncate] (idx@.len() as i32)
                            &&& calls_of(final(out)@) == calls_of(old(out)@) + manual_geometry_calls(
                                vao.id,
                                vbo.id,
                                vertices@,
                                Some((ebo.id, idx@)),
                            ) + texture_calls
                        },
                        None => {
                            &&& m.ebo is None
                            &&& m.index_count == vertex_count_of(vertices@.len())
                            &&& calls_of(final(out)@) == calls_of(old(out)@) + manual_geometry_calls(
                                vao.id,
                                vbo.id,
                                vertices@,
                                None,
                            ) + texture_calls
                        },
                    }
                },
                None => mesh is None && final(out)@ == old(out)@,
            },
    {
        let mut cmds: Vec<GlCommand> = Vec::new();
        vbo.upload(&mut cmds, vertices, STATIC_DRAW);
        emit_standard_layout(&mut cmds, &vao, &vbo);
        let ghost given = indices;
        let (ebo, index_count) = match indices {
            Some((ebo, idx)) => {
                ebo.upload(&mut cmds, idx, STATIC_DRAW);
                vao.set_element_buffer(&mut cmds, &ebo);
                let count: i32 = #[verifier::truncate] (idx.len() as i32);
                (Some(ebo), count)
            },
            None => {
                let n: i32 = #[verifier::truncate] (vertices.len() as i32);
                (None, n / 12)
            },
        };
        let ghost index_data = match given {
            Some((e, idx)) => Some((e.id, idx@)),
            None => None,
        };
        assert(calls_of(cmds@) =~= manual_geometry_calls(vao.id, vbo.id, vertices@, index_data));
        let albedo = match load_slot(&mut cmds, albedo, "sRGB8_RGBA8", defaults.white) {
            Some(t) => t,
            None => return None,
        };
        let normal = match load_slot(&mut cmds, normal, "Linear_RGBA8", defaults.normal) {
            Some(t) => t,
            None => return None,
        };
        let orm = match load_slot(&mut cmds, orm, "Linear_RGBA8", defaults.black) {
            Some(t) => t,
            None => return None,
        };
        let ghost pending = cmds@;
        out.append(&mut cmds);
        assert(calls_of(out@) =~= calls_of(old(out)@) + calls_of(pending));
        Some(Mesh { vao, vbo, ebo, index_count, albedo, normal, orm })
    }

    /// The single triangle of `triangle_vertex_words`, drawn without
    /// indices; a fresh set of default textures (named `default_names`:
    /// white, normal, black) fills in missing material maps, and supplied
    /// maps are loaded as in `new_manual`.  When a supplied file does not
    /// decode, only the default textures are created and the result is
    /// `None`.
    pub fn triangle(
        out: &mut Vec<GlCommand>,
        vao: VertexArray,
        vbo: Buffer,
        albedo: Option<ImageFile>,
        normal: Option<ImageFile>,
        orm: Option<ImageFile>,
        default_names: [u32; 3],
    ) -> (mesh: Option<Self>)
        ensures
            match material_textures(
                albedo,
                normal,
                orm,
                Texture2D::solid_color(default_names@[0]),
                Texture2D::solid_color(default_names@[1]),
                Texture2D::solid_color(default_names@[2]),
            ) {
                Some((a, n, o, texture_calls)) => {
                    &&& mesh matches Some(m)
                    &&& m.vao == vao
                    &&& m.vbo == vbo
                    &&& m.ebo is None
                    &&& m.index_count == 3
                    &&& m.albedo == a
                    &&& m.normal == n
                    &&& m.orm == o
                    &&& calls_of(final(out)@) == calls_of(old(out)@) + default_textures_calls(
                        default_names@[0],
                        default_names@[1],
                        default_names@[2],
                    ) + seq![
                        GlCall::NamedBufferData {
                            buffer: vbo.id,
                            words: triangle_vertex_words(),
                            usage: STATIC_DRAW,
                        },
                    ] + standard_layout_calls(vao.id, vbo.id) + texture_calls
                },
                None => {
                    &&& mesh is None
                    &&& calls_of(final(out)@) == calls_of(old(out)@) + default_textures_calls(
                        default_names@[0],
                        default_names@[1],
                        default_names@[2],
                    )
                },
            },
    {
        let vertices: Vec<u32> = vec![
            0x0000_0000, 0x3F00_0000, 0x0000_0000, 0x0000_0000, 0x0000_0000, 0x3F80_0000,
            0x3F80_0000, 0x0000_0000, 0x0000_0000, 0x3F80_0000, 0x3F00_0000, 0x3F80_0000,
            0xBF00_0000, 0xBF00_0000, 0x0000_0000, 0x0000_0000, 0x0000_0000, 0x3F80_0000,
            0x3F80_0000, 0x0000_0000, 0x0000_0000, 0x3F80_0000, 0x0000_0000, 0x0000_0000,
            0x3F00_0000, 0xBF00_0000, 0x0000_0000, 0x0000_0000, 0x0000_0000, 0x3F80_0000,
            0x3F80_0000, 0x0000_0000, 0x0000_0000, 0x3F80_0000, 0x3F80_0000, 0x0000_0000,
        ];
        assert(vertices@ =~= triangle_vertex_words());
        let defaults = DefaultTextures::new(out, default_names[0], default_names[1], default_names[2]);
        let ghost mid = out@;
        let mesh = Mesh::new_manual(out, vao, vbo, vertices.as_slice(), None, albedo, normal, orm, &defaults);
        proof {
            let geometry = manual_geometry_calls(vao.id, vbo.id, triangle_vertex_words(), None);
            assert(geometry =~= seq![
                GlCall::NamedBufferData { buffer: vbo.id, words: triangle_vertex_words(), usage: STATIC_DRAW },
            ] + standard_layout_calls(vao.id, vbo.id));
            if mesh is Some {
                assert(vertex_count_of(36) == 3);
            }
        }
        mesh
    }

    /// Draws the mesh (see `draw_calls`).
    pub fn draw(&self, out: &mut Vec<GlCommand>)
        ensures
            calls_of(final(out)@) == calls_of(old(out)@) + self.draw_calls(),
    {
        self.vao.bind(out);
        self.albedo.bind(out, 0);
        self.normal.bind(out, 1);
        self.orm.bind(out, 2);
        if self.ebo.is_some() {
            emit(out, GlCommand::DrawElements { mode: TRIANGLES, count: self.index_count, index_type: UNSIGNED_INT });
        } else {
            emit(out, GlCommand::DrawArrays { mode: TRIANGLES, first: 0, count: self.index_count });
        }
        assert(calls_of(out@) =~= calls_of(old(out)@) + self.draw_calls());
    }

    /// The calls that delete the mesh's vertex array and buffers (the
    /// textures are shared and stay).
    pub open spec fn delete_calls(&self) -> Seq<GlCall> {
        seq![
            GlCall::DeleteVertexArray { vao: self.vao.id },
            GlCall::DeleteBuffer { buffer: self.vbo.id },
        ] + match self.ebo {
            Some(e) => seq![GlCall::DeleteBuffer { buffer: e.id }],
            None => Seq::empty(),
        }
    }

    /// Deletes the mesh's vertex array and buffers (see `delete_calls`).
    pub fn delete(self, out: &mut Vec<GlCommand>)
        ensures
            calls_of(final(out)@) == calls_of(old(out)@) + self.delete_calls(),
    {
        let ghost calls = self.delete_calls();
        self.vao.delete(out);
        self.vbo.delete(out);
        match self.ebo {
            Some(e) => e.delete(out),
            None => {},
        }
        assert(calls_of(out@) =~= calls_of(old(out)@) + calls);
    }
}


/// A triangle strip covering the whole viewport, with texture coordinates.
pub struct FullscreenQuad {
    vao: VertexArray,
    vbo: Buffer,
}

impl FullscreenQuad {
    /// The name of the quad's vertex array.
    pub closed spec fn vertex_array_id(&self) -> u32 {
        self.vao.id
    }

    /// The name of the quad's vertex buffer.
    pub closed spec fn vertex_buffer_id(&self) -> u32 {
        self.vbo.id
    }

    /// Builds the quad: `quad_vertex_words` go to `vbo`, read as a 2D
    /// position (attribute 0) and 2D texture coordinates (attribute 1).
    pub fn new(out: &mut Vec<GlCommand>, vao: VertexArray, vbo: Buffer) -> (quad: Self)
        ensures
            quad.vertex_array_id() == vao.id,
            quad.vertex_buffer_id() == vbo.id,
            calls_of(final(out)@) == calls_of(old(out)@) + seq![
                GlCall::NamedBufferData { buffer: vbo.id, words: quad_vertex_words(), usage: STATIC_DRAW },
                GlCall::VertexArrayVertexBuffer {
                    vao: vao.id,
                    binding_index: 0,
                    buffer: vbo.id,
                    offset: 0,
                    stride: (4 * COMPONENT_BYTES) as i32,
                },
            ] + enable_attribute_calls(vao.id, 0, 2, 0, 0) + enable_attribute_calls(
                vao.id,
                1,
                2,
                0,
                (2 * COMPONENT_BYTES) as usize,
            ),
    {
        let vertices: Vec<u32> = vec![
            0xBF80_0000, 0x3F80_0000, 0x0000_0000, 0x3F80_0000,
            0xBF80_0000, 0xBF80_0000, 0x0000_0000, 0x0000_0000,
            0x3F80_0000, 0x3F80_0000, 0x3F80_0000, 0x3F80_0000,
            0x3F80_0000, 0xBF80_0000, 0x3F80_0000, 0x0000_0000,
        ];
        assert(vertices@ =~= quad_vertex_words());
        vbo.upload(out, vertices.as_slice(), STATIC_DRAW);
        vao.set_vertex_buffer(out, 0, &vbo, 0, (4 * COMPONENT_BYTES) as i32);
        vao.enable_attribute(out, 0, 2, 0, 0);
        vao.enable_attribute(out, 1, 2, 0, 2 * COMPONENT_BYTES);
        assert(calls_of(out@) =~= calls_of(old(out)@) + seq![
            GlCall::NamedBufferData { buffer: vbo.id, words: quad_vertex_words(), usage: STATIC_DRAW },
            GlCall::VertexArrayVertexBuffer {
                vao: vao.id,
                binding_index: 0,
                buffer: vbo.id,
                offset: 0,
                stride: (4 * COMPONENT_BYTES) as i32,
            },
        ] + enable_attribute_calls(vao.id, 0, 2, 0, 0) + enable_attribute_calls(
            vao.id,
            1,
            2,
            0,
            (2 * COMPONENT_BYTES) as usize,
        ));
        FullscreenQuad { vao, vbo }
    }

    /// The calls that draw the quad: its four vertices as a triangle strip.
    pub open spec fn draw_calls(&self) -> Seq<GlCall> {
        seq![
            GlCall::BindVertexArray { vao: self.vertex_array_id() },
            GlCall::DrawArrays { mode: TRIANGLE_STRIP, first: 0, count: 4 },
        ]
    }

    /// Draws the quad (see `draw_calls`).
    pub fn draw(&self, out: &mut Vec<GlCommand>)
        ensures
            calls_of(final(out)@) == calls_of(old(out)@) + self.draw_calls(),
    {
        self.vao.bind(out);
        emit(out, GlCommand::DrawArrays { mode: TRIANGLE_STRIP, first: 0, count: 4 });
        assert(calls_of(out@) =~= calls_of(old(out)@) + self.draw_calls());
    }

    /// Deletes the quad's vertex array and vertex buffer.
    pub fn delete(self, out: &mut Vec<GlCommand>)
        ensures
            calls_of(final(out)@) == calls_of(old(out)@) + seq![
                GlCall::DeleteVertexArray { vao: self.vertex_array_id() },
                GlCall::DeleteBuffer { buffer: self.vertex_buffer_id() },
            ],
    {
        let ghost ids = (self.vao.id, self.vbo.id);
        self.vao.delete(out);
        self.vbo.delete(out);
        assert(calls_of(out@) =~= calls_of(old(out)@) + seq![
            GlCall::DeleteVertexArray { vao: ids.0 },
            GlCall::DeleteBuffer { buffer: ids.1 },
        ]);
    }
}

/// The cube of half-side 0.1 drawn at light positions and, scaled by the
/// shaders, as the skybox and the cube-map capture geometry.
pub struct LightCube {
    vao: VertexArray,
    vbo: Buffer,
    ebo: Buffer,
    index_count: i32,
}

impl LightCube {
    /// The name of the cube's vertex array.
    pub closed spec fn vertex_array_id(&self) -> u32 {
        self.vao.id
    }

    /// The number of indices the cube is drawn with.
    pub closed spec fn index_count_spec(&self) -> i32 {
        self.index_count
    }

    /// The names of the cube's vertex and element buffers.
    pub closed spec fn vertex_buffer_id(&self) -> u32 {
        self.vbo.id
    }

    pub closed spec fn element_buffer_id(&self) -> u32 {
        self.ebo.id
    }

    /// Builds the cube: the corners of `cube_vertex_words` go to `vbo` as 3D
    /// positions (attribute 0), the 36 `cube_indices` to `ebo`.
    pub fn new(out: &mut Vec<GlCommand>, vao: VertexArray, vbo: Buffer, ebo: Buffer) -> (cube: Self)
        ensures
            cube.vertex_array_id() == vao.id,
            cube.vertex_buffer_id() == vbo.id,
            cube.element_buffer_id() == ebo.id,
            cube.index_count_spec() == 36,
            calls_of(final(out)@) == calls_of(old(out)@) + seq![
                GlCall::NamedBufferData { buffer: vbo.id, words: cube_vertex_words(), usage: STATIC_DRAW },
                GlCall::NamedBufferData { buffer: ebo.id, words: cube_indices(), usage: STATIC_DRAW },
                GlCall::VertexArrayVertexBuffer {
                    vao: vao.id,
                    binding_index: 0,
                    buffer: vbo.id,
                    offset: 0,
                    stride: (3 * COMPONENT_BYTES) as i32,
                },
            ] + enable_attribute_calls(vao.id, 0, 3, 0, 0) + seq![
                GlCall::VertexArrayElementBuffer { vao: vao.id, buffer: ebo.id },
            ],
    {
        let vertices: Vec<u32> = vec![
            0xBDCC_CCCD, 0xBDCC_CCCD, 0xBDCC_CCCD,
            0x3DCC_CCCD, 0xBDCC_CCCD, 0xBDCC_CCCD,
            0x3DCC_CCCD, 0x3DCC_CCCD, 0xBDCC_CCCD,
            0xBDCC_CCCD, 0x3DCC_CCCD, 0xBDCC_CCCD,
            0xBDCC_CCCD, 0xBDCC_CCCD, 0x3DCC_CCCD,
            0x3DCC_CCCD, 0xBDCC_CCCD, 0x3DCC_CCCD,
            0x3DCC_CCCD, 0x3DCC_CCCD, 0x3DCC_CCCD,
            0xBDCC_CCCD, 0x3DCC_CCCD, 0x3DCC_CCCD,
        ];
        let indices: Vec<u32> = vec![
            0, 2, 1, 0, 3, 2,
            4, 5, 6, 4, 6, 7,
            0, 7, 3, 0, 4, 7,
            1, 2, 6, 1, 6, 5,
            3, 7, 6, 3, 6, 2,
            0, 1, 5, 0, 5, 4,
        ];
        assert(vertices@ =~= cube_vertex_words());
        assert(indices@ =~= cube_indices());
        vbo.upload(out, vertices.as_slice(), STATIC_DRAW);
        ebo.upload(out, indices.as_slice(), STATIC_DRAW);
        vao.set_vertex_buffer(out, 0, &vbo, 0, (3 * COMPONENT_BYTES) as i32);
        vao.enable_attribute(out, 0, 3, 0, 0);
        vao.set_element_buffer(out, &ebo);
        assert(calls_of(out@) =~= calls_of(old(out)@) + seq![
            GlCall::NamedBufferData { buffer: vbo.id, words: cube_vertex_words(), usage: STATIC_DRAW },
            GlCall::NamedBufferData { buffer: ebo.id, words: cube_indices(), usage: STATIC_DRAW },
            GlCall::VertexArrayVertexBuffer {
                vao: vao.id,
                binding_index: 0,
                buffer: vbo.id,
                offset: 0,
                stride: (3 * COMPONENT_BYTES) as i32,
            },
        ] + enable_attribute_calls(vao.id, 0, 3, 0, 0) + seq![
            GlCall::VertexArrayElementBuffer { vao: vao.id, buffer: ebo.id },
        ]);
        let index_count: i32 = 36;
        LightCube { vao, vbo, ebo, index_count }
    }

    /// The calls that draw the cube: its indexed triangles.
    pub open spec fn draw_calls(&self) -> Seq<GlCall> {
        seq![
            GlCall::BindVertexArray { vao: self.vertex_array_id() },
            GlCall::DrawElements { mode: TRIANGLES, count: self.index_count_spec(), index_type: UNSIGNED_INT },
        ]
    }

    /// Draws the cube (see `draw_calls`).
    pub fn draw(&self, out: &mut Vec<GlCommand>)
        ensures
            calls_of(final(out)@) == calls_of(old(out)@) + self.draw_calls(),
    {
        self.vao.bind(out);
        emit(out, GlCommand::DrawElements { mode: TRIANGLES, count: self.index_count, index_type: UNSIGNED_INT });
        assert(calls_of(out@) =~= calls_of(old(out)@) + self.draw_calls());
    }

    /// Deletes the cube's vertex array and its vertex and element buffers.
    pub fn delete(self, out: &mut Vec<GlCommand>)
        ensures
            calls_of(final(out)@) == calls_of(old(out)@) + seq![
                GlCall::DeleteVertexArray { vao: self.vertex_array_id() },
                GlCall::DeleteBuffer { buffer: self.vertex_buffer_id() },
                GlCall::DeleteBuffer { buffer: self.element_buffer_id() },
            ],
    {
        let ghost ids = (self.vao.id, self.vbo.id, self.ebo.id);
        self.vao.delete(out);
        self.vbo.delete(out);
        self.ebo.delete(out);
        assert(calls_of(out@) =~= calls_of(old(out)@) + seq![
            GlCall::DeleteVertexArray { vao: ids.0 },
            GlCall::DeleteBuffer { buffer: ids.1 },
            GlCall::DeleteBuffer { buffer: ids.2 },
        ]);
    }
}

} // verus!
