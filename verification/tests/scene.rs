use pbr_renderer::buffer::Buffer;
use pbr_renderer::camera::{CameraMovement, MovementAxis};
use pbr_renderer::command::{GlCommand, PixelData};
use pbr_renderer::environment_map::{EnvironmentMap, ENVIRONMENT_SIZE, IRRADIANCE_SIZE};
use pbr_renderer::light::LightManager;
use pbr_renderer::mesh::{FullscreenQuad, LightCube, Mesh};
use pbr_renderer::model::{interleave_vertex_attributes, Model, PrimitiveData};
use pbr_renderer::texture::{DefaultTextures, ImageData, ImageFile, ImageFormat, Texture2D};
use pbr_renderer::texturecube::TextureCube;
use pbr_renderer::ubo_manager::{BlockImage, UboManager};
use pbr_renderer::vao::VertexArray;

fn tex(id: u32) -> Texture2D {
    Texture2D { id, width: 1, height: 1, internal_format: gl::RGBA8, format: gl::RGBA }
}

/// A PNG file holding the given RGBA8 texels, top row first.
fn png(width: u32, height: u32, rgba: Vec<u8>) -> Vec<u8> {
    let img = image::RgbaImage::from_raw(width, height, rgba).unwrap();
    let mut bytes = Vec::new();
    img.write_to(&mut std::io::Cursor::new(&mut bytes), image::ImageFormat::Png).unwrap();
    bytes
}

fn png_file(id: u32) -> ImageFile {
    ImageFile { id, bytes: png(1, 2, vec![1, 2, 3, 4, 5, 6, 7, 8]), ext: "png".to_owned() }
}

fn bits(values: &[f32]) -> Vec<u32> {
    values.iter().map(|v| v.to_bits()).collect()
}

fn standard_layout(vao: u32, vbo: u32) -> Vec<GlCommand> {
    let mut v = vec![GlCommand::VertexArrayVertexBuffer { vao, binding_index: 0, buffer: vbo, offset: 0, stride: 48 }];
    for (index, size, offset) in [(0u32, 3i32, 0u32), (1, 3, 12), (2, 4, 24), (3, 2, 40)] {
        v.push(GlCommand::EnableVertexArrayAttrib { vao, attrib_index: index });
        v.push(GlCommand::VertexArrayAttribFormat {
            vao,
            attrib_index: index,
            size,
            component_type: gl::FLOAT,
            normalized: false,
            relative_offset: offset,
        });
        v.push(GlCommand::VertexArrayAttribBinding { vao, attrib_index: index, binding_index: 0 });
    }
    v
}

#[test]
fn indexed_mesh_setup_and_draw() {
    let mut out = Vec::new();
    let mesh = Mesh::new(
        &mut out,
        VertexArray { id: 1 },
        Buffer { id: 2 },
        Buffer { id: 3 },
        &[10, 11],
        &[0, 1, 2, 2, 1, 0],
        tex(4),
        tex(5),
        tex(6),
    );
    assert_eq!(mesh.index_count, 6);
    let mut expected = vec![
        GlCommand::NamedBufferData { buffer: 2, words: vec![10, 11], usage: gl::STATIC_DRAW },
        GlCommand::NamedBufferData { buffer: 3, words: vec![0, 1, 2, 2, 1, 0], usage: gl::STATIC_DRAW },
    ];
    expected.extend(standard_layout(1, 2));
    expected.push(GlCommand::VertexArrayElementBuffer { vao: 1, buffer: 3 });
    assert_eq!(out, expected);

    let mut out = Vec::new();
    mesh.draw(&mut out);
    assert_eq!(
        out,
        vec![
            GlCommand::BindVertexArray { vao: 1 },
            GlCommand::BindTextureUnit { unit: 0, texture: 4 },
            GlCommand::BindTextureUnit { unit: 1, texture: 5 },
            GlCommand::BindTextureUnit { unit: 2, texture: 6 },
            GlCommand::DrawElements { mode: gl::TRIANGLES, count: 6, index_type: gl::UNSIGNED_INT },
        ]
    );
}

#[test]
fn manual_mesh_falls_back_to_default_textures() {
    let mut setup = Vec::new();
    let defaults = DefaultTextures::new(&mut setup, 20, 21, 22);
    let mut out = Vec::new();
    let vertices = vec![0u32; 24];
    let mesh = Mesh::new_manual(
        &mut out,
        VertexArray { id: 1 },
        Buffer { id: 2 },
        &vertices,
        None,
        Some(png_file(9)),
        None,
        None,
        &defaults,
    )
    .unwrap();
    assert!(mesh.ebo.is_none());
    assert_eq!(mesh.index_count, 2);
    assert_eq!(
        mesh.albedo,
        Texture2D { id: 9, width: 1, height: 2, internal_format: gl::SRGB8_ALPHA8, format: gl::RGBA }
    );
    assert_eq!(mesh.normal.id, 21);
    assert_eq!(mesh.orm.id, 22);
    let mut expected = vec![GlCommand::NamedBufferData { buffer: 2, words: vertices.clone(), usage: gl::STATIC_DRAW }];
    expected.extend(standard_layout(1, 2));
    assert_eq!(out[..14].to_vec(), expected);
    // then the albedo map: storage, bottom row first, parameters, mipmaps
    assert_eq!(out.len(), 14 + 7);
    assert_eq!(
        out[14],
        GlCommand::TextureStorage2D { texture: 9, levels: 1, internal_format: gl::SRGB8_ALPHA8, width: 1, height: 2 }
    );
    assert_eq!(
        out[15],
        GlCommand::TextureSubImage2D {
            texture: 9,
            level: 0,
            x_offset: 0,
            y_offset: 0,
            width: 1,
            height: 2,
            format: gl::RGBA,
            pixel_type: gl::UNSIGNED_BYTE,
            pixels: PixelData::Bytes(vec![5, 6, 7, 8, 1, 2, 3, 4]),
        }
    );
    assert_eq!(out[20], GlCommand::GenerateTextureMipmap { texture: 9 });

    let mut out = Vec::new();
    mesh.draw(&mut out);
    assert_eq!(out[4], GlCommand::DrawArrays { mode: gl::TRIANGLES, first: 0, count: 2 });

    let mut out = Vec::new();
    let indices = [0u32, 1, 2];
    let mesh = Mesh::new_manual(
        &mut out,
        VertexArray { id: 1 },
        Buffer { id: 2 },
        &vertices,
        Some((Buffer { id: 3 }, &indices[..])),
        None,
        Some(png_file(8)),
        Some(png_file(7)),
        &defaults,
    )
    .unwrap();
    assert_eq!(mesh.ebo, Some(Buffer { id: 3 }));
    assert_eq!(mesh.index_count, 3);
    assert_eq!(mesh.albedo.id, 20);
    assert_eq!(mesh.normal.id, 8);
    assert_eq!(mesh.normal.internal_format, gl::RGBA8);
    assert_eq!(mesh.orm.id, 7);
    assert_eq!(mesh.orm.internal_format, gl::RGBA8);
    assert_eq!(out.len(), 1 + 13 + 2 + 7 + 7);
    assert_eq!(out[14], GlCommand::NamedBufferData { buffer: 3, words: vec![0, 1, 2], usage: gl::STATIC_DRAW });
    assert_eq!(out[15], GlCommand::VertexArrayElementBuffer { vao: 1, buffer: 3 });
    assert_eq!(
        out[16],
        GlCommand::TextureStorage2D { texture: 8, levels: 1, internal_format: gl::RGBA8, width: 1, height: 2 }
    );
    assert_eq!(
        out[23],
        GlCommand::TextureStorage2D { texture: 7, levels: 1, internal_format: gl::RGBA8, width: 1, height: 2 }
    );
}

#[test]
fn manual_mesh_with_undecodable_map_issues_nothing() {
    let mut setup = Vec::new();
    let defaults = DefaultTextures::new(&mut setup, 20, 21, 22);
    let mut out = vec![GlCommand::UseProgram { program: 1 }];
    let broken = ImageFile { id: 9, bytes: vec![0, 1, 2, 3], ext: "png".to_owned() };
    let mesh = Mesh::new_manual(
        &mut out,
        VertexArray { id: 1 },
        Buffer { id: 2 },
        &[0u32; 12],
        None,
        None,
        Some(broken),
        None,
        &defaults,
    );
    assert!(mesh.is_none());
    assert_eq!(out, vec![GlCommand::UseProgram { program: 1 }]);
}

#[test]
fn triangle_mesh_holds_the_triangle() {
    let mut out = Vec::new();
    let mesh = Mesh::triangle(&mut out, VertexArray { id: 1 }, Buffer { id: 2 }, None, Some(png_file(7)), None, [30, 31, 32])
        .unwrap();
    assert_eq!(mesh.index_count, 3);
    assert_eq!(mesh.albedo.id, 30);
    assert_eq!(mesh.normal.id, 7);
    assert_eq!(mesh.normal.internal_format, gl::RGBA8);
    assert_eq!(mesh.orm.id, 32);
    let vertices = bits(&[
        0.0, 0.5, 0.0, 0.0, 0.0, 1.0, 1.0, 0.0, 0.0, 1.0, 0.5, 1.0,
        -0.5, -0.5, 0.0, 0.0, 0.0, 1.0, 1.0, 0.0, 0.0, 1.0, 0.0, 0.0,
        0.5, -0.5, 0.0, 0.0, 0.0, 1.0, 1.0, 0.0, 0.0, 1.0, 1.0, 0.0,
    ]);
    assert_eq!(out.len(), 3 * 6 + 1 + 13 + 7);
    assert_eq!(out[18], GlCommand::NamedBufferData { buffer: 2, words: vertices, usage: gl::STATIC_DRAW });
    assert_eq!(out[19..32].to_vec(), standard_layout(1, 2));
    assert_eq!(
        out[32],
        GlCommand::TextureStorage2D { texture: 7, levels: 1, internal_format: gl::RGBA8, width: 1, height: 2 }
    );

    let mut out = Vec::new();
    let broken = ImageFile { id: 7, bytes: vec![9; 10], ext: "png".to_owned() };
    assert!(Mesh::triangle(&mut out, VertexArray { id: 1 }, Buffer { id: 2 }, Some(broken), None, None, [30, 31, 32])
        .is_none());
    assert_eq!(out.len(), 3 * 6);
}

#[test]
fn mesh_quad_and_cube_deletion() {
    let mut out = Vec::new();
    let mesh = Mesh::new(&mut out, VertexArray { id: 1 }, Buffer { id: 2 }, Buffer { id: 3 }, &[], &[], tex(4), tex(5), tex(6));
    let quad = FullscreenQuad::new(&mut out, VertexArray { id: 7 }, Buffer { id: 8 });
    let cube = LightCube::new(&mut out, VertexArray { id: 9 }, Buffer { id: 10 }, Buffer { id: 11 });
    let model = Model { meshes: vec![
        Mesh::new(&mut out, VertexArray { id: 12 }, Buffer { id: 13 }, Buffer { id: 14 }, &[], &[], tex(4), tex(5), tex(6)),
    ] };
    let mut out = Vec::new();
    mesh.delete(&mut out);
    quad.delete(&mut out);
    cube.delete(&mut out);
    model.delete(&mut out);
    assert_eq!(
        out,
        vec![
            GlCommand::DeleteVertexArray { vao: 1 },
            GlCommand::DeleteBuffer { buffer: 2 },
            GlCommand::DeleteBuffer { buffer: 3 },
            GlCommand::DeleteVertexArray { vao: 7 },
            GlCommand::DeleteBuffer { buffer: 8 },
            GlCommand::DeleteVertexArray { vao: 9 },
            GlCommand::DeleteBuffer { buffer: 10 },
            GlCommand::DeleteBuffer { buffer: 11 },
            GlCommand::DeleteVertexArray { vao: 12 },
            GlCommand::DeleteBuffer { buffer: 13 },
            GlCommand::DeleteBuffer { buffer: 14 },
        ]
    );
}

#[test]
fn fullscreen_quad_and_light_cube() {
    let mut out = Vec::new();
    let quad = FullscreenQuad::new(&mut out, VertexArray { id: 1 }, Buffer { id: 2 });
    assert_eq!(
        out[0],
        GlCommand::NamedBufferData {
            buffer: 2,
            words: bits(&[-1.0, 1.0, 0.0, 1.0, -1.0, -1.0, 0.0, 0.0, 1.0, 1.0, 1.0, 1.0, 1.0, -1.0, 1.0, 0.0]),
            usage: gl::STATIC_DRAW,
        }
    );
    assert_eq!(out[1], GlCommand::VertexArrayVertexBuffer { vao: 1, binding_index: 0, buffer: 2, offset: 0, stride: 16 });
    assert_eq!(out.len(), 8);
    let mut out = Vec::new();
    quad.draw(&mut out);
    assert_eq!(
        out,
        vec![
            GlCommand::BindVertexArray { vao: 1 },
            GlCommand::DrawArrays { mode: gl::TRIANGLE_STRIP, first: 0, count: 4 },
        ]
    );

    let mut out = Vec::new();
    let cube = LightCube::new(&mut out, VertexArray { id: 4 }, Buffer { id: 5 }, Buffer { id: 6 });
    let corners = bits(&[
        -0.1, -0.1, -0.1, 0.1, -0.1, -0.1, 0.1, 0.1, -0.1, -0.1, 0.1, -0.1,
        -0.1, -0.1, 0.1, 0.1, -0.1, 0.1, 0.1, 0.1, 0.1, -0.1, 0.1, 0.1,
    ]);
    assert_eq!(out[0], GlCommand::NamedBufferData { buffer: 5, words: corners, usage: gl::STATIC_DRAW });
    match &out[1] {
        GlCommand::NamedBufferData { buffer, words, usage } => {
            assert_eq!(*buffer, 6);
            assert_eq!(*usage, gl::STATIC_DRAW);
            assert_eq!(words.len(), 36);
            assert_eq!(words[..6].to_vec(), vec![0, 2, 1, 0, 3, 2]);
            assert!(words.iter().all(|&i| i < 8));
        }
        other => panic!("unexpected {:?}", other),
    }
    assert_eq!(out.last(), Some(&GlCommand::VertexArrayElementBuffer { vao: 4, buffer: 6 }));
    let mut out = Vec::new();
    cube.draw(&mut out);
    assert_eq!(
        out,
        vec![
            GlCommand::BindVertexArray { vao: 4 },
            GlCommand::DrawElements { mode: gl::TRIANGLES, count: 36, index_type: gl::UNSIGNED_INT },
        ]
    );
}

#[test]
fn model_draws_its_meshes_in_order() {
    let mut setup = Vec::new();
    let a = Mesh::new(&mut setup, VertexArray { id: 1 }, Buffer { id: 2 }, Buffer { id: 3 }, &[], &[0, 1, 2], tex(4), tex(5), tex(6));
    let b = Mesh::new(&mut setup, VertexArray { id: 7 }, Buffer { id: 8 }, Buffer { id: 9 }, &[], &[0, 1, 2], tex(4), tex(5), tex(6));
    let mut expected = Vec::new();
    a.draw(&mut expected);
    b.draw(&mut expected);
    let model = Model { meshes: vec![a, b] };
    let mut out = Vec::new();
    model.draw(&mut out);
    assert_eq!(out, expected);
    let empty = Model { meshes: Vec::new() };
    let mut out = Vec::new();
    empty.draw(&mut out);
    assert!(out.is_empty());
}

#[test]
fn interleaving_places_each_attribute() {
    let positions = [[1.0f32, 2.0, 3.0], [4.0, 5.0, 6.0]];
    let normals = [[0.0f32, 0.0, 1.0], [0.0, 1.0, 0.0]];
    let tangents = [[1.0f32, 0.0, 0.0, 1.0], [1.0, 0.0, 0.0, -1.0]];
    let uvs = [[0.25f32, 0.75], [0.5, 0.5]];
    let v = interleave_vertex_attributes(&positions, &normals, &tangents, &uvs);
    assert_eq!(
        v,
        vec![
            1.0, 2.0, 3.0, 0.0, 0.0, 1.0, 1.0, 0.0, 0.0, 1.0, 0.25, 0.75,
            4.0, 5.0, 6.0, 0.0, 1.0, 0.0, 1.0, 0.0, 0.0, -1.0, 0.5, 0.5,
        ]
    );
    let none: [[f32; 3]; 0] = [];
    assert!(interleave_vertex_attributes(&none, &normals, &tangents, &uvs).is_empty());
}

#[test]
fn light_manager_reads_back_writes() {
    let mut lights: LightManager<(u8, u8)> = LightManager::new();
    assert_eq!(lights.get_light(0), None);
    lights.add_light((1, 1));
    lights.add_light((2, 2));
    assert_eq!(lights.get_light(1), Some((2, 2)));
    lights.set_light(1, (9, 9));
    assert_eq!(lights.get_light(1), Some((9, 9)));
    assert_eq!(lights.get_light(0), Some((1, 1)));
    lights.set_light(5, (7, 7));
    assert_eq!(lights.get_lights(), vec![(1, 1), (9, 9)]);
    assert_eq!(lights.get_light(2), None);
}

#[test]
fn uniform_blocks_upload_once_per_change() {
    let mut out = Vec::new();
    let mut ubo: UboManager<u32, u64, i16> = UboManager::new(
        &mut out,
        Buffer { id: 1 },
        Buffer { id: 2 },
        Buffer { id: 3 },
        10,
        20,
        0,
        BlockImage { byte_size: 32, words: vec![10; 8] },
        BlockImage { byte_size: 144, words: vec![20; 36] },
        BlockImage { byte_size: 48, words: vec![0; 12] },
    );
    assert_eq!(
        out,
        vec![
            GlCommand::NamedBufferAllocate { buffer: 1, byte_size: 32, usage: gl::DYNAMIC_DRAW },
            GlCommand::NamedBufferSubData { buffer: 1, words: vec![10; 8] },
            GlCommand::NamedBufferAllocate { buffer: 2, byte_size: 144, usage: gl::DYNAMIC_DRAW },
            GlCommand::NamedBufferSubData { buffer: 2, words: vec![20; 36] },
            GlCommand::NamedBufferAllocate { buffer: 3, byte_size: 48, usage: gl::DYNAMIC_DRAW },
            GlCommand::NamedBufferSubData { buffer: 3, words: vec![0; 12] },
            GlCommand::BindBufferBase { target: gl::UNIFORM_BUFFER, index: 0, buffer: 1 },
            GlCommand::BindBufferBase { target: gl::UNIFORM_BUFFER, index: 1, buffer: 2 },
            GlCommand::BindBufferBase { target: gl::UNIFORM_BUFFER, index: 2, buffer: 3 },
        ]
    );
    let w = ubo.update();
    assert!(w.settings.is_none() && w.camera.is_none() && w.lights.is_none());

    ubo.set_settings(11);
    ubo.set_camera(21);
    let w = ubo.update();
    assert_eq!(w.settings, Some((1, 11)));
    assert_eq!(w.camera, Some((2, 21)));
    assert!(w.lights.is_none());
    let w = ubo.update();
    assert!(w.settings.is_none() && w.camera.is_none() && w.lights.is_none());

    ubo.set_lights(vec![-5]);
    let w = ubo.update();
    let (buffer, block) = w.lights.unwrap();
    assert_eq!(buffer, 3);
    assert_eq!(block.count, [1, 0, 0, 0]);
    assert_eq!(block.lights, [-5]);

    ubo.set_light(3, 100);
    assert!(ubo.update().lights.is_none());
    ubo.set_light(0, 6);
    let (_, block) = ubo.update().lights.unwrap();
    assert_eq!(block.count, [1, 0, 0, 0]);
    assert_eq!(block.lights, [6]);

    ubo.set_lights(Vec::new());
    let (_, block) = ubo.update().lights.unwrap();
    assert_eq!(block.count, [0, 0, 0, 0]);
    assert_eq!(block.lights, [6]);

    let mut out = Vec::new();
    ubo.delete(&mut out);
    assert_eq!(
        out,
        vec![
            GlCommand::DeleteBuffer { buffer: 1 },
            GlCommand::DeleteBuffer { buffer: 2 },
            GlCommand::DeleteBuffer { buffer: 3 },
        ]
    );
}

#[test]
fn environment_paths_and_bindings() {
    let paths = EnvironmentMap::asset_paths("assets/textures/sky");
    assert_eq!(paths.environment, "assets/textures/sky/environment.hdr");
    assert_eq!(paths.irradiance, "assets/textures/sky/irradiance.hdr");
    assert_eq!(paths.prefiltered, "assets/textures/sky/prefiltered");
    assert_eq!(paths.brdf_lut, "assets/textures/sky/brdf_lut.png");

    let mut setup = Vec::new();
    let cube = LightCube::new(&mut setup, VertexArray { id: 1 }, Buffer { id: 2 }, Buffer { id: 3 });
    let cubemap = |id, size| TextureCube { id, size, internal_format: gl::RGB16F };
    let mut out = Vec::new();
    let env = EnvironmentMap::new(
        &mut out,
        cube,
        cubemap(10, ENVIRONMENT_SIZE),
        cubemap(11, IRRADIANCE_SIZE),
        cubemap(12, 128),
        png_file(13),
    )
    .unwrap();
    assert_eq!(ENVIRONMENT_SIZE, 2048);
    assert_eq!(IRRADIANCE_SIZE, 32);
    assert_eq!(
        env.brdf_lut,
        Texture2D { id: 13, width: 1, height: 2, internal_format: gl::RGB32F, format: gl::RGBA }
    );
    assert_eq!(out.len(), 7);
    assert_eq!(
        out[0],
        GlCommand::TextureStorage2D { texture: 13, levels: 1, internal_format: gl::RGB32F, width: 1, height: 2 }
    );
    let mut out = Vec::new();
    env.bind_irradiance(&mut out, 3);
    env.bind_prefiltered(&mut out, 4);
    env.bind_brdf_lut(&mut out, 5);
    assert_eq!(
        out,
        vec![
            GlCommand::BindTextureUnit { unit: 3, texture: 11 },
            GlCommand::BindTextureUnit { unit: 4, texture: 12 },
            GlCommand::BindTextureUnit { unit: 5, texture: 13 },
        ]
    );
    let mut out = Vec::new();
    env.draw_skybox(&mut out);
    assert_eq!(
        out,
        vec![
            GlCommand::BindTextureUnit { unit: 0, texture: 10 },
            GlCommand::DepthFunc { func: gl::LEQUAL },
            GlCommand::Disable { capability: gl::CULL_FACE },
            GlCommand::BindVertexArray { vao: 1 },
            GlCommand::DrawElements { mode: gl::TRIANGLES, count: 36, index_type: gl::UNSIGNED_INT },
            GlCommand::DepthFunc { func: gl::LESS },
            GlCommand::Enable { capability: gl::CULL_FACE },
        ]
    );
}

#[test]
fn environment_without_lookup_table_and_its_deletion() {
    let mut setup = Vec::new();
    let cube = LightCube::new(&mut setup, VertexArray { id: 1 }, Buffer { id: 2 }, Buffer { id: 3 });
    let cubemap = |id, size| TextureCube { id, size, internal_format: gl::RGB16F };
    let mut out = Vec::new();
    let broken = ImageFile { id: 13, bytes: vec![1, 2, 3], ext: "png".to_owned() };
    assert!(EnvironmentMap::new(
        &mut out,
        cube,
        cubemap(10, ENVIRONMENT_SIZE),
        cubemap(11, IRRADIANCE_SIZE),
        cubemap(12, 128),
        broken
    )
    .is_none());
    assert!(out.is_empty());

    let cube = LightCube::new(&mut setup, VertexArray { id: 4 }, Buffer { id: 5 }, Buffer { id: 6 });
    let env = EnvironmentMap::new(
        &mut out,
        cube,
        cubemap(10, ENVIRONMENT_SIZE),
        cubemap(11, IRRADIANCE_SIZE),
        cubemap(12, 128),
        png_file(13),
    )
    .unwrap();
    let mut out = Vec::new();
    env.delete(&mut out);
    assert_eq!(
        out,
        vec![
            GlCommand::DeleteVertexArray { vao: 4 },
            GlCommand::DeleteBuffer { buffer: 5 },
            GlCommand::DeleteBuffer { buffer: 6 },
        ]
    );
}

#[test]
fn camera_movement_directions() {
    assert_eq!(CameraMovement::Forward.direction(), (MovementAxis::Front, true));
    assert_eq!(CameraMovement::Backward.direction(), (MovementAxis::Front, false));
    assert_eq!(CameraMovement::Left.direction(), (MovementAxis::Right, false));
    assert_eq!(CameraMovement::Right.direction(), (MovementAxis::Right, true));
    assert_eq!(CameraMovement::Up.direction(), (MovementAxis::WorldUp, true));
    assert_eq!(CameraMovement::Down.direction(), (MovementAxis::WorldUp, false));
}

#[test]
fn model_builds_one_mesh_per_primitive_in_order() {
    let primitive = |base: u32, albedo: Option<ImageData>| PrimitiveData {
        positions: vec![[1, 2, 3]],
        normals: vec![[4, 5, 6]],
        tangents: vec![[7, 8, 9, 10]],
        tex_coords: vec![[11, 12]],
        indices: vec![0, 0, 0],
        albedo_names: if albedo.is_some() { vec![base] } else { vec![base, base + 1, base + 2] },
        albedo,
        normal_map: None,
        orm: None,
        normal_names: vec![base + 3, base + 4, base + 5],
        orm_names: vec![base + 6, base + 7, base + 8],
        vao: VertexArray { id: base + 10 },
        vbo: Buffer { id: base + 11 },
        ebo: Buffer { id: base + 12 },
    };
    let image = ImageData { pixels: vec![9, 9, 9], format: ImageFormat::R8G8B8, width: 1, height: 1 };
    let mut out = Vec::new();
    let model = Model::from_primitives(&mut out, vec![primitive(100, Some(image)), primitive(200, None)]);
    assert_eq!(model.meshes.len(), 2);

    let first = &model.meshes[0];
    assert_eq!(first.albedo, Texture2D { id: 100, width: 1, height: 1, internal_format: gl::SRGB8, format: gl::RGB });
    assert_eq!(first.normal.id, 104);
    assert_eq!(first.orm.id, 107);
    assert_eq!(first.vao, VertexArray { id: 110 });
    assert_eq!(first.ebo, Some(Buffer { id: 112 }));
    assert_eq!(first.index_count, 3);
    let second = &model.meshes[1];
    assert_eq!(second.albedo.id, 201);
    assert_eq!(second.albedo.internal_format, gl::RGBA8);

    // per primitive: albedo (7 calls with an image, 18 for defaults), normal
    // and ORM defaults (18 each), then 2 buffer uploads, 13 layout calls and
    // the element buffer
    assert_eq!(out.len(), (7 + 18 + 18 + 16) + (18 + 18 + 18 + 16));
    assert_eq!(
        out[0],
        GlCommand::TextureStorage2D { texture: 100, levels: 1, internal_format: gl::SRGB8, width: 1, height: 1 }
    );
    assert_eq!(
        out[43],
        GlCommand::NamedBufferData {
            buffer: 111,
            words: (1..=12).collect(),
            usage: gl::STATIC_DRAW,
        }
    );
    assert_eq!(out[44], GlCommand::NamedBufferData { buffer: 112, words: vec![0, 0, 0], usage: gl::STATIC_DRAW });
    assert_eq!(out[58], GlCommand::VertexArrayElementBuffer { vao: 110, buffer: 112 });
    assert_eq!(
        out[59],
        GlCommand::TextureStorage2D { texture: 200, levels: 1, internal_format: gl::RGBA8, width: 1, height: 1 }
    );
}
