//! Image-based lighting: an environment cube map with its diffuse
//! irradiance and prefiltered specular maps and the BRDF lookup table.

use vstd::prelude::*;

use crate::command::{calls_of, emit, GlCall, GlCommand};
use crate::gl_enums::{CULL_FACE, LEQUAL, LESS, RGB16F};
use crate::mesh::LightCube;
use crate::texture::{file_texture, ImageFile, Texture2D};
use crate::texturecube::TextureCube;

verus! {

/// Face size of the environment cube map, in pixels.
pub const ENVIRONMENT_SIZE: u32 = 2048;

/// Face size of the diffuse irradiance cube map, in pixels.
pub const IRRADIANCE_SIZE: u32 = 32;

/// Mipmap levels of the prefiltered specular map.
pub const PREFILTERED_MIP_LEVELS: u32 = 7;

/// Where the maps of an environment are stored below its directory.
pub struct EnvironmentAssetPaths {
    pub environment: String,
    pub irradiance: String,
    pub prefiltered: String,
    pub brdf_lut: String,
}

/// The environment maps, with the cube the skybox is drawn with.
pub struct EnvironmentMap {
    pub cube: LightCube,
    pub environment: TextureCube,
    pub irradiance: TextureCube,
    pub prefiltered: TextureCube,
    pub brdf_lut: Texture2D,
}

fn joined(dir: &str, file: &str) -> (path: String)
    ensures
        path@ == dir@ + file@,
{
    let mut path = dir.to_owned();
    path.append(file);
    path
}

impl EnvironmentMap {
    /// The files of the environment in directory `path`:
    /// `environment.hdr`, `irradiance.hdr`, `prefiltered` and `brdf_lut.png`.
    pub fn asset_paths(path: &str) -> (paths: EnvironmentAssetPaths)
        ensures
            paths.environment@ == path@ + "/environment.hdr"@,
            paths.irradiance@ == path@ + "/irradiance.hdr"@,
            paths.prefiltered@ == path@ + "/prefiltered"@,
            paths.brdf_lut@ == path@ + "/brdf_lut.png"@,
    {
        EnvironmentAssetPaths {
            environment: joined(path, "/environment.hdr"),
            irradiance: joined(path, "/irradiance.hdr"),
            prefiltered: joined(path, "/prefiltered"),
            brdf_lut: joined(path, "/brdf_lut.png"),
        }
    }

    /// Assembles an environment from its skybox cube and its maps: the
    /// environment and irradiance maps are RGB16F cube maps of
    /// `ENVIRONMENT_SIZE` and `IRRADIANCE_SIZE` faces (rendered from the
    /// environment's HDR images), and the BRDF lookup table is loaded from
    /// its image file as an RGB32F texture.  `None`, with nothing issued,
    /// when that file does not decode.
    pub fn new(
        out: &mut Vec<GlCommand>,
        cube: LightCube,
        environment: TextureCube,
        irradiance: TextureCube,
        prefiltered: TextureCube,
        brdf_lut: ImageFile,
    ) -> (map: Option<Self>)
        requires
            environment.size == ENVIRONMENT_SIZE,
            environment.internal_format == RGB16F,
            irradiance.size == IRRADIANCE_SIZE,
            irradiance.internal_format == RGB16F,
        ensures
            match file_texture(brdf_lut.id, brdf_lut.bytes@, brdf_lut.ext@, "RGB32F"@) {
                Some((lut, calls)) => {
                    &&& map matches Some(m)
                    &&& m.cube == cube
                    &&& m.environment == environment
                    &&& m.irradiance == irradiance
                    &&& m.prefiltered == prefiltered
                    &&& m.brdf_lut == lut
                    &&& calls_of(final(out)@) == calls_of(old(out)@) + calls
                },
                None => map is None && final(out)@ == old(out)@,
            },
    {
        match Texture2D::from_file_bytes(out, brdf_lut.id, brdf_lut.bytes.as_slice(), brdf_lut.ext.as_str(), "RGB32F") {
            Some(lut) => Some(EnvironmentMap { cube, environment, irradiance, prefiltered, brdf_lut: lut }),
            None => None,
        }
    }

    /// The calls that draw the skybox: the environment on unit 0, drawn on
    /// the far plane (depth test `LEQUAL`) with culling off, after which the
    /// default depth test (`LESS`) and culling are restored.
    pub open spec fn skybox_calls(&self) -> Seq<GlCall> {
        seq![
            GlCall::BindTextureUnit { unit: 0, texture: self.environment.id },
            GlCall::DepthFunc { func: LEQUAL },
            GlCall::Disable { capability: CULL_FACE },
        ] + self.cube.draw_calls() + seq![
            GlCall::DepthFunc { func: LESS },
            GlCall::Enable { capability: CULL_FACE },
        ]
    }

    /// Draws the skybox (see `skybox_calls`).
    pub fn draw_skybox(&self, out: &mut Vec<GlCommand>)
        ensures
            calls_of(final(out)@) == calls_of(old(out)@) + self.skybox_calls(),
    {
        self.environment.bind(out, 0);
        emit(out, GlCommand::DepthFunc { func: LEQUAL });
        emit(out, GlCommand::Disable { capability: CULL_FACE });
        self.cube.draw(out);
        emit(out, GlCommand::DepthFunc { func: LESS });
        emit(out, GlCommand::Enable { capability: CULL_FACE });
        assert(calls_of(out@) =~= calls_of(old(out)@) + self.skybox_calls());
    }

    /// Deletes the skybox cube's vertex array and buffers (the maps are
    /// textures and stay).
    pub fn delete(self, out: &mut Vec<GlCommand>)
        ensures
            calls_of(final(out)@) == calls_of(old(out)@) + seq![
                GlCall::DeleteVertexArray { vao: self.cube.vertex_array_id() },
                GlCall::DeleteBuffer { buffer: self.cube.vertex_buffer_id() },
                GlCall::DeleteBuffer { buffer: self.cube.element_buffer_id() },
            ],
    {
        self.cube.delete(out);
    }

    /// Binds the diffuse irradiance map to texture unit `unit`.
    pub fn bind_irradiance(&self, out: &mut Vec<GlCommand>, unit: u32)
        ensures
            calls_of(final(out)@) == calls_of(old(out)@).push(
                GlCall::BindTextureUnit { unit, texture: self.irradiance.id },
            ),
    {
        self.irradiance.bind(out, unit);
    }

    /// Binds the prefiltered specular map to texture unit `unit`.
    pub fn bind_prefiltered(&self, out: &mut Vec<GlCommand>, unit: u32)
        ensures
            calls_of(final(out)@) == calls_of(old(out)@).push(
                GlCall::BindTextureUnit { unit, texture: self.prefiltered.id },
            ),
    {
        self.prefiltered.bind(out, unit);
    }

    /// Binds the BRDF lookup table to texture unit `unit`.
    pub fn bind_brdf_lut(&self, out: &mut Vec<GlCommand>, unit: u32)
        ensures
            calls_of(final(out)@) == calls_of(old(out)@).push(
                GlCall::BindTextureUnit { unit, texture: self.brdf_lut.id },
            ),
    {
        self.brdf_lut.bind(out, unit);
    }
}

} // verus!
