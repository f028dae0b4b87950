//! Models: the meshes of a loaded glTF scene, and the vertex interleaving
//! that builds their vertex buffers.

use vstd::prelude::*;

use crate::buffer::Buffer;
use crate::command::{calls_of, GlCall, GlCommand};
use crate::gl_enums::{RGB, RGB8, RGBA, RGBA8, SRGB8, SRGB8_ALPHA8, STATIC_DRAW};
use crate::mesh::{standard_layout_calls, Mesh};
use crate::texture::{
    default_textures_calls, gltf_upload_formats, mipmapped_image_calls, ImageData, ImageFormat, Texture2D,
};
use crate::vao::VertexArray;

verus! {

/// The standard-layout vertex stream of the first `count` vertices:
/// position, normal, tangent (with handedness) and texture coordinates of
/// each vertex in turn.
pub open spec fn interleaved<T>(
    positions: Seq<[T; 3]>,
    normals: Seq<[T; 3]>,
    tangents: Seq<[T; 4]>,
    tex_coords: Seq<[T; 2]>,
    count: nat,
) -> Seq<T>
    decreases count,
{
    if count == 0 {
        seq![]
    } else {
        let i = count - 1;
        interleaved(positions, normals, tangents, tex_coords, (count - 1) as nat) + positions[i]@
            + normals[i]@ + tangents[i]@ + tex_coords[i]@
    }
}

/// Each vertex occupies 12 consecutive components: its position at offsets
/// 0..3, normal at 3..6, tangent at 6..10 and texture coordinates at 10..12.
pub proof fn lemma_interleaved_layout<T>(
    positions: Seq<[T; 3]>,
    normals: Seq<[T; 3]>,
    tangents: Seq<[T; 4]>,
    tex_coords: Seq<[T; 2]>,
    count: nat,
    i: int,
)
    requires
        0 <= i < count,
    ensures
        interleaved(positions, normals, tangents, tex_coords, count).len() == 12 * count,
        interleaved(positions, normals, tangents, tex_coords, count).subrange(12 * i, 12 * i + 3)
            == positions[i]@,
        interleaved(positions, normals, tangents, tex_coords, count).subrange(12 * i + 3, 12 * i + 6)
            == normals[i]@,
        interleaved(positions, normals, tangents, tex_coords, count).subrange(12 * i + 6, 12 * i + 10)
            == tangents[i]@,
        interleaved(positions, normals, tangents, tex_coords, count).subrange(12 * i + 10, 12 * i + 12)
            == tex_coords[i]@,
    decreases count,
{
    lemma_interleaved_len(positions, normals, tangents, tex_coords, (count - 1) as nat);
    let prefix = interleaved(positions, normals, tangents, tex_coords, (count - 1) as nat);
    let all = interleaved(positions, normals, tangents, tex_coords, count);
    let last = count - 1;
    assert(all == prefix + positions[last]@ + normals[last]@ + tangents[last]@ + tex_coords[last]@);
    if i < count - 1 {
        lemma_interleaved_layout(positions, normals, tangents, tex_coords, (count - 1) as nat, i);
        assert(all.subrange(12 * i, 12 * i + 3) =~= prefix.subrange(12 * i, 12 * i + 3));
        assert(all.subrange(12 * i + 3, 12 * i + 6) =~= prefix.subrange(12 * i + 3, 12 * i + 6));
        assert(all.subrange(12 * i + 6, 12 * i + 10) =~= prefix.subrange(12 * i + 6, 12 * i + 10));
        assert(all.subrange(12 * i + 10, 12 * i + 12) =~= prefix.subrange(12 * i + 10, 12 * i + 12));
    } else {
        assert(all.subrange(12 * i, 12 * i + 3) =~= positions[i]@);
        assert(all.subrange(12 * i + 3, 12 * i + 6) =~= normals[i]@);
        assert(all.subrange(12 * i + 6, 12 * i + 10) =~= tangents[i]@);
        assert(all.subrange(12 * i + 10, 12 * i + 12) =~= tex_coords[i]@);
    }
}

proof fn lemma_interleaved_len<T>(
    positions: Seq<[T; 3]>,
    normals: Seq<[T; 3]>,
    tangents: Seq<[T; 4]>,
    tex_coords: Seq<[T; 2]>,
    count: nat,
)
    ensures
        interleaved(positions, normals, tangents, tex_coords, count).len() == 12 * count,
    decreases count,
{
    if count > 0 {
        lemma_interleaved_len(positions, normals, tangents, tex_coords, (count - 1) as nat);
    }
}

/// Builds the vertex stream of a primitive in the standard layout, one
/// vertex per position (the other attribute lists must be at least as long).
pub fn interleave_vertex_attributes<T: Copy>(
    positions: &[[T; 3]],
    normals: &[[T; 3]],
    tangents: &[[T; 4]],
    tex_coords: &[[T; 2]],
) -> (vertices: Vec<T>)
    requires
        normals@.len() >= positions@.len(),
        tangents@.len() >= positions@.len(),
        tex_coords@.len() >= positions@.len(),
        12 * positions@.len() <= usize::MAX,
    ensures
        vertices@ == interleaved(positions@, normals@, tangents@, tex_coords@, positions@.len()),
{
    let count = positions.len();
    let mut vertices: Vec<T> = Vec::with_capacity(count * 12);
    let mut i: usize = 0;
    while i < count
        invariant
            count == positions@.len(),
            normals@.len() >= count,
            tangents@.len() >= count,
            tex_coords@.len() >= count,
            i <= count,
            vertices@ == interleaved(positions@, normals@, tangents@, tex_coords@, i as nat),
        decreases count - i,
    {
        let ghost before = vertices@;
        let p = &positions[i];
        let n = &normals[i];
        let t = &tangents[i];
        let uv = &tex_coords[i];
        vertices.push(p[0]);
        vertices.push(p[1]);
        vertices.push(p[2]);
        vertices.push(n[0]);
        vertices.push(n[1]);
        vertices.push(n[2]);
        vertices.push(t[0]);
        vertices.push(t[1]);
        vertices.push(t[2]);
        vertices.push(t[3]);
        vertices.push(uv[0]);
        vertices.push(uv[1]);
        assert(vertices@ =~= before + positions@[i as int]@ + normals@[i as int]@ + tangents@[i as int]@
            + tex_coords@[i as int]@);
        i = i + 1;
    }
    vertices
}

/// The calls that draw `meshes` one after the other.
pub open spec fn meshes_draw_calls(meshes: Seq<Mesh>) -> Seq<GlCall>
    decreases meshes.len(),
{
    if meshes.len() == 0 {
        seq![]
    } else {
        meshes_draw_calls(meshes.drop_last()) + meshes.last().draw_calls()
    }
}

/// The calls that delete `meshes` one after the other.
pub open spec fn meshes_delete_calls(meshes: Seq<Mesh>) -> Seq<GlCall>
    decreases meshes.len(),
{
    if meshes.len() == 0 {
        seq![]
    } else {
        meshes_delete_calls(meshes.drop_last()) + meshes.last().delete_calls()
    }
}

/// One primitive of a glTF scene, as read from the file: its vertex
/// attributes (as 32-bit words), its indices, its material images, and the
/// GL names its mesh and textures will use (one texture name for a given
/// image, three for a missing one, whose default textures are created).
pub struct PrimitiveData {
    pub positions: Vec<[u32; 3]>,
    pub normals: Vec<[u32; 3]>,
    pub tangents: Vec<[u32; 4]>,
    pub tex_coords: Vec<[u32; 2]>,
    pub indices: Vec<u32>,
    pub albedo: Option<ImageData>,
    pub normal_map: Option<ImageData>,
    pub orm: Option<ImageData>,
    pub albedo_names: Vec<u32>,
    pub normal_names: Vec<u32>,
    pub orm_names: Vec<u32>,
    pub vao: VertexArray,
    pub vbo: Buffer,
    pub ebo: Buffer,
}

/// Whether `Texture2D::from_gltf` accepts `image` with `names`.
pub open spec fn gltf_slot_ok(image: Option<ImageData>, srgb: bool, names: Seq<u32>) -> bool {
    match image {
        Some(img) => gltf_upload_formats(img.format, srgb) is Some && names.len() == 1,
        None => names.len() == 3,
    }
}

/// The texture that `Texture2D::from_gltf` makes of `image`, with its calls.
pub open spec fn gltf_texture(image: Option<ImageData>, srgb: bool, names: Seq<u32>) -> (Texture2D, Seq<GlCall>) {
    match image {
        Some(img) => {
            let (format, internal_format) = gltf_upload_formats(img.format, srgb)->0;
            (
                Texture2D {
                    id: names[0],
                    width: img.width as i32,
                    height: img.height as i32,
                    internal_format,
                    format,
                },
                mipmapped_image_calls(
                    names[0],
                    internal_format,
                    img.width as i32,
                    img.height as i32,
                    format,
                    img.pixels@,
                ),
            )
        },
        None => (
            Texture2D { id: names[1], width: 1, height: 1, internal_format: RGBA8, format: RGBA },
            default_textures_calls(names[0], names[1], names[2]),
        ),
    }
}

/// The primitive can be built: every attribute list covers the positions,
/// the vertex stream fits in memory, and each material image is in a layout
/// that can be uploaded, with the right number of texture names.
pub open spec fn primitive_ok(p: PrimitiveData) -> bool {
    &&& p.normals@.len() >= p.positions@.len()
    &&& p.tangents@.len() >= p.positions@.len()
    &&& p.tex_coords@.len() >= p.positions@.len()
    &&& 12 * p.positions@.len() <= usize::MAX
    &&& gltf_slot_ok(p.albedo, true, p.albedo_names@)
    &&& gltf_slot_ok(p.normal_map, false, p.normal_names@)
    &&& gltf_slot_ok(p.orm, false, p.orm_names@)
}

/// The vertex stream of a primitive.
pub open spec fn primitive_vertices(p: PrimitiveData) -> Seq<u32> {
    interleaved(p.positions@, p.normals@, p.tangents@, p.tex_coords@, p.positions@.len())
}

/// The calls that build a primitive's mesh: its albedo (sRGB), normal and
/// ORM (linear) textures in that order, then its vertex and index buffers
/// and vertex layout.
pub open spec fn primitive_calls(p: PrimitiveData) -> Seq<GlCall> {
    gltf_texture(p.albedo, true, p.albedo_names@).1 + gltf_texture(p.normal_map, false, p.normal_names@).1
        + gltf_texture(p.orm, false, p.orm_names@).1 + seq![
        GlCall::NamedBufferData { buffer: p.vbo.id, words: primitive_vertices(p), usage: STATIC_DRAW },
        GlCall::NamedBufferData { buffer: p.ebo.id, words: p.indices@, usage: STATIC_DRAW },
    ] + standard_layout_calls(p.vao.id, p.vbo.id) + seq![
        GlCall::VertexArrayElementBuffer { vao: p.vao.id, buffer: p.ebo.id },
    ]
}

/// The calls that build the meshes of `ps`, one primitive after the other.
pub open spec fn primitives_calls(ps: Seq<PrimitiveData>) -> Seq<GlCall>
    decreases ps.len(),
{
    if ps.len() == 0 {
        seq![]
    } else {
        primitives_calls(ps.drop_last()) + primitive_calls(ps.last())
    }
}

/// `m` is the mesh built from primitive `p`.
pub open spec fn mesh_of_primitive(m: Mesh, p: PrimitiveData) -> bool {
    &&& m.vao == p.vao
    &&& m.vbo == p.vbo
    &&& m.ebo == Some(p.ebo)
    &&& m.index_count == #[verifier::truncate] (p.indices@.len() as i32)
    &&& m.albedo == gltf_texture(p.albedo, true, p.albedo_names@).0
    &&& m.normal == gltf_texture(p.normal_map, false, p.normal_names@).0
    &&& m.orm == gltf_texture(p.orm, false, p.orm_names@).0
}

/// Builds the mesh of one primitive (see `primitive_calls`).
fn build_primitive(out: &mut Vec<GlCommand>, p: PrimitiveData) -> (mesh: Mesh)
    requires
        primitive_ok(p),
    ensures
        mesh_of_primitive(mesh, p),
        calls_of(final(out)@) == calls_of(old(out)@) + primitive_calls(p),
{
    let ghost q = p;
    let vertices = interleave_vertex_attributes(
        p.positions.as_slice(),
        p.normals.as_slice(),
        p.tangents.as_slice(),
        p.tex_coords.as_slice(),
    );
    let albedo = Texture2D::from_gltf(out, p.albedo.as_ref(), true, p.albedo_names.as_slice());
    let normal = Texture2D::from_gltf(out, p.normal_map.as_ref(), false, p.normal_names.as_slice());
    let orm = Texture2D::from_gltf(out, p.orm.as_ref(), false, p.orm_names.as_slice());
    let mesh = Mesh::new(
        out,
        p.vao,
        p.vbo,
        p.ebo,
        vertices.as_slice(),
        p.indices.as_slice(),
        albedo,
        normal,
        orm,
    );
    assert(calls_of(out@) =~= calls_of(old(out)@) + primitive_calls(q));
    mesh
}

/// The internal format a colour (albedo) image of layout `format` is
/// stored in: sRGB.
pub open spec fn srgb_storage(format: ImageFormat) -> u32 {
    if format == ImageFormat::R8G8B8A8 {
        SRGB8_ALPHA8
    } else {
        SRGB8
    }
}

/// The internal format a data image (normal or ORM map) of layout
/// `format` is stored in: linear.
pub open spec fn linear_storage(format: ImageFormat) -> u32 {
    if format == ImageFormat::R8G8B8A8 {
        RGBA8
    } else {
        RGB8
    }
}

/// The number of calls that build a primitive's albedo texture: 7 for an
/// image, 18 for the three default textures.
pub open spec fn albedo_call_count(p: PrimitiveData) -> int {
    if p.albedo is Some {
        7
    } else {
        18
    }
}

/// Only the albedo map of a primitive is stored as sRGB: its normal and ORM
/// maps keep their linear values (RGBA8 / RGB8), and a missing map falls
/// back to a linear RGBA8 default.  The first call that builds the normal
/// map, right after the albedo's (7 calls for an image, 18 for the
/// defaults), allocates the normal map's first name in its linear format.
pub proof fn law_only_albedo_is_srgb(p: PrimitiveData, m: Mesh)
    requires
        primitive_ok(p),
        mesh_of_primitive(m, p),
    ensures
        p.albedo matches Some(img) ==> m.albedo.internal_format == srgb_storage(img.format),
        p.normal_map matches Some(img) ==> m.normal.internal_format == linear_storage(img.format),
        p.orm matches Some(img) ==> m.orm.internal_format == linear_storage(img.format),
        p.normal_map is None ==> m.normal.internal_format == RGBA8,
        p.orm is None ==> m.orm.internal_format == RGBA8,
        p.normal_map matches Some(img) ==> (primitive_calls(p)[albedo_call_count(p)] == (GlCall::TextureStorage2D {
            texture: p.normal_names@[0],
            levels: 1,
            internal_format: linear_storage(img.format),
            width: img.width as i32,
            height: img.height as i32,
        })),
{
    let a = gltf_texture(p.albedo, true, p.albedo_names@).1;
    let n = gltf_texture(p.normal_map, false, p.normal_names@).1;
    assert(a.len() == albedo_call_count(p));
    if p.normal_map is Some {
        assert(n.len() > 0);
        assert(primitive_calls(p)[a.len() as int] == n[0]);
    }
}

/// A model: the meshes of its primitives.
pub struct Model {
    pub meshes: Vec<Mesh>,
}

impl Model {
    /// Draws every mesh, in order.
    pub fn draw(&self, out: &mut Vec<GlCommand>)
        ensures
            calls_of(final(out)@) == calls_of(old(out)@) + meshes_draw_calls(self.meshes@),
    {
        let n = self.meshes.len();
        let mut i: usize = 0;
        while i < n
            invariant
                n == self.meshes@.len(),
                i <= n,
                calls_of(out@) == calls_of(old(out)@) + meshes_draw_calls(self.meshes@.take(i as int)),
            decreases n - i,
        {
            self.meshes[i].draw(out);
            assert(self.meshes@.take(i + 1).drop_last() =~= self.meshes@.take(i as int));
            assert(calls_of(out@) =~= calls_of(old(out)@) + meshes_draw_calls(self.meshes@.take(i + 1)));
            i = i + 1;
        }
        assert(self.meshes@.take(n as int) =~= self.meshes@);
    }

    /// Builds the model of a glTF scene's primitives: one mesh per
    /// primitive, in order (see `primitive_calls`).
    pub fn from_primitives(out: &mut Vec<GlCommand>, primitives: Vec<PrimitiveData>) -> (model: Model)
        requires
            forall|i: int| 0 <= i < primitives@.len() ==> primitive_ok(#[trigger] primitives@[i]),
        ensures
            model.meshes@.len() == primitives@.len(),
            forall|i: int|
                0 <= i < primitives@.len() ==> mesh_of_primitive(#[trigger] model.meshes@[i], primitives@[i]),
            calls_of(final(out)@) == calls_of(old(out)@) + primitives_calls(primitives@),
    {
        let ghost all = primitives@;
        let mut rest = primitives;
        let mut meshes: Vec<Mesh> = Vec::new();
        let ghost mut k: int = 0;
        while rest.len() > 0
            invariant
                0 <= k <= all.len(),
                rest@ == all.skip(k),
                meshes@.len() == k,
                forall|i: int| 0 <= i < all.len() ==> primitive_ok(#[trigger] all[i]),
                forall|i: int| 0 <= i < k ==> mesh_of_primitive(#[trigger] meshes@[i], all[i]),
                calls_of(out@) == calls_of(old(out)@) + primitives_calls(all.take(k)),
            decreases rest@.len(),
        {
            let p = rest.remove(0);
            assert(p == all[k]);
            let mesh = build_primitive(out, p);
            meshes.push(mesh);
            proof {
                assert(all.take(k + 1).drop_last() =~= all.take(k));
                assert(all.take(k + 1).last() == all[k]);
                assert(rest@ =~= all.skip(k + 1));
                k = k + 1;
            }
            assert(calls_of(out@) =~= calls_of(old(out)@) + primitives_calls(all.take(k)));
        }
        assert(all.take(k) =~= all);
        Model { meshes }
    }

    /// Deletes the GL objects of every mesh, in order.
    pub fn delete(self, out: &mut Vec<GlCommand>)
        ensures
            calls_of(final(out)@) == calls_of(old(out)@) + meshes_delete_calls(self.meshes@),
    {
        let ghost all = self.meshes@;
        let mut meshes = self.meshes;
        let ghost mut k: int = 0;
        while meshes.len() > 0
            invariant
                0 <= k <= all.len(),
                meshes@ == all.skip(k),
                calls_of(out@) == calls_of(old(out)@) + meshes_delete_calls(all.take(k)),
            decreases meshes@.len(),
        {
            let mesh = meshes.remove(0);
            mesh.delete(out);
            proof {
                assert(all.take(k + 1).drop_last() =~= all.take(k));
                assert(all.take(k + 1).last() == all[k]);
                assert(meshes@ =~= all.skip(k + 1));
                k = k + 1;
            }
            assert(calls_of(out@) =~= calls_of(old(out)@) + meshes_delete_calls(all.take(k)));
        }
        assert(all.take(k) =~= all);
    }
}

} // verus!
