use pbr_renderer::command::GlCommand;
use pbr_renderer::framebuffer::Framebuffer;
use pbr_renderer::hdr_pass::HdrPass;
use pbr_renderer::mesh::LightCube;
use pbr_renderer::buffer::Buffer;
use pbr_renderer::vao::VertexArray;
use pbr_renderer::shader::Shader;
use pbr_renderer::texture::Texture2D;
use pbr_renderer::texturecube::TextureCube;

fn tex(id: u32) -> Texture2D {
    Texture2D { id, width: 4, height: 4, internal_format: gl::RGBA16F, format: 0 }
}

#[test]
fn framebuffer_bind_and_unbind() {
    let fb = Framebuffer::new(3, 320, 200);
    assert!(fb.color.is_empty());
    assert!(fb.depth.is_none());
    let mut out = Vec::new();
    fb.bind(&mut out);
    fb.unbind(&mut out);
    assert_eq!(
        out,
        vec![
            GlCommand::BindFramebuffer { target: gl::FRAMEBUFFER, framebuffer: 3 },
            GlCommand::Viewport { x: 0, y: 0, width: 320, height: 200 },
            GlCommand::BindFramebuffer { target: gl::FRAMEBUFFER, framebuffer: 0 },
        ]
    );
}

#[test]
fn color_attachments_route_every_output() {
    let mut fb = Framebuffer::new(3, 4, 4);
    let mut out = Vec::new();
    fb.add_color_attachment(&mut out, tex(10));
    fb.add_color_attachment(&mut out, tex(11));
    fb.set_depth_attachment(&mut out, tex(12));
    assert_eq!(fb.color, vec![tex(10), tex(11)]);
    assert_eq!(fb.depth, Some(tex(12)));
    assert_eq!(
        out,
        vec![
            GlCommand::NamedFramebufferTexture { framebuffer: 3, attachment: gl::COLOR_ATTACHMENT0, texture: 10, level: 0 },
            GlCommand::NamedFramebufferDrawBuffers { framebuffer: 3, buffers: vec![gl::COLOR_ATTACHMENT0] },
            GlCommand::NamedFramebufferTexture { framebuffer: 3, attachment: gl::COLOR_ATTACHMENT0 + 1, texture: 11, level: 0 },
            GlCommand::NamedFramebufferDrawBuffers {
                framebuffer: 3,
                buffers: vec![gl::COLOR_ATTACHMENT0, gl::COLOR_ATTACHMENT0 + 1],
            },
            GlCommand::NamedFramebufferTexture { framebuffer: 3, attachment: gl::DEPTH_ATTACHMENT, texture: 12, level: 0 },
        ]
    );
}

#[test]
fn recreate_gives_every_attachment_new_storage() {
    let mut fb = Framebuffer::new(3, 4, 4);
    let mut out = Vec::new();
    fb.add_color_attachment(&mut out, tex(10));
    fb.set_depth_attachment(&mut out, Texture2D { id: 12, width: 4, height: 4, internal_format: gl::DEPTH_COMPONENT24, format: 0 });
    let mut out = Vec::new();
    fb.recreate(&mut out, 8, 6, &[20, 22]);
    assert_eq!((fb.width, fb.height), (8, 6));
    assert_eq!(fb.color, vec![Texture2D { id: 20, width: 8, height: 6, internal_format: gl::RGBA16F, format: 0 }]);
    assert_eq!(fb.depth, Some(Texture2D { id: 22, width: 8, height: 6, internal_format: gl::DEPTH_COMPONENT24, format: 0 }));
    assert_eq!(
        out,
        vec![
            GlCommand::DeleteTexture { texture: 10 },
            GlCommand::TextureStorage2D { texture: 20, levels: 1, internal_format: gl::RGBA16F, width: 8, height: 6 },
            GlCommand::NamedFramebufferTexture { framebuffer: 3, attachment: gl::COLOR_ATTACHMENT0, texture: 20, level: 0 },
            GlCommand::DeleteTexture { texture: 12 },
            GlCommand::TextureStorage2D { texture: 22, levels: 1, internal_format: gl::DEPTH_COMPONENT24, width: 8, height: 6 },
            GlCommand::NamedFramebufferTexture { framebuffer: 3, attachment: gl::DEPTH_ATTACHMENT, texture: 22, level: 0 },
        ]
    );
}

#[test]
fn hdr_pass_setup() {
    let mut out = Vec::new();
    let pass = HdrPass::new(&mut out, 1, 2, 3, 1920, 1080);
    assert_eq!(pass.framebuffer.id, 1);
    assert_eq!(pass.framebuffer.color, vec![Texture2D { id: 2, width: 1920, height: 1080, internal_format: gl::RGBA16F, format: 0 }]);
    assert_eq!(
        pass.framebuffer.depth,
        Some(Texture2D { id: 3, width: 1920, height: 1080, internal_format: gl::DEPTH_COMPONENT24, format: 0 })
    );
    assert_eq!(out.len(), 5 + 5 + 3);
    assert_eq!(out[0], GlCommand::TextureStorage2D { texture: 2, levels: 1, internal_format: gl::RGBA16F, width: 1920, height: 1080 });
    assert_eq!(out[3], GlCommand::TextureParameteri { texture: 2, pname: gl::TEXTURE_WRAP_S, param: gl::REPEAT as i32 });
    assert_eq!(out[6], GlCommand::TextureParameteri { texture: 3, pname: gl::TEXTURE_MIN_FILTER, param: gl::NEAREST as i32 });
    assert_eq!(out[8], GlCommand::TextureParameteri { texture: 3, pname: gl::TEXTURE_WRAP_S, param: gl::CLAMP_TO_EDGE as i32 });
    assert_eq!(out[12], GlCommand::NamedFramebufferTexture { framebuffer: 1, attachment: gl::DEPTH_ATTACHMENT, texture: 3, level: 0 });
}

fn clear_tail(width: i32, height: i32) -> Vec<GlCommand> {
    vec![
        GlCommand::Viewport { x: 0, y: 0, width, height },
        GlCommand::ClearColor { red: 0.0f32.to_bits(), green: 0.0f32.to_bits(), blue: 0.0f32.to_bits(), alpha: 1.0f32.to_bits() },
        GlCommand::Clear { mask: gl::COLOR_BUFFER_BIT | gl::DEPTH_BUFFER_BIT },
    ]
}

#[test]
fn hdr_pass_begin_without_resize_only_clears() {
    let mut setup = Vec::new();
    let mut pass = HdrPass::new(&mut setup, 1, 2, 3, 100, 50);
    assert!(!pass.needs_resize(100, 50));
    let mut out = Vec::new();
    pass.begin(&mut out, 100, 50, &[]);
    let mut expected = vec![
        GlCommand::BindFramebuffer { target: gl::FRAMEBUFFER, framebuffer: 1 },
        GlCommand::Viewport { x: 0, y: 0, width: 100, height: 50 },
    ];
    expected.extend(clear_tail(100, 50));
    assert_eq!(out, expected);
    let mut out = Vec::new();
    pass.end(&mut out);
    assert_eq!(out, vec![GlCommand::BindFramebuffer { target: gl::FRAMEBUFFER, framebuffer: 0 }]);
}

#[test]
fn hdr_pass_begin_resizes_on_a_new_size() {
    let mut setup = Vec::new();
    let mut pass = HdrPass::new(&mut setup, 1, 2, 3, 100, 50);
    assert!(pass.needs_resize(200, 50));
    let mut out = Vec::new();
    pass.begin(&mut out, 200, 50, &[4, 5]);
    assert_eq!((pass.framebuffer.width, pass.framebuffer.height), (200, 50));
    assert_eq!(pass.framebuffer.color[0].id, 4);
    assert_eq!(pass.framebuffer.depth.unwrap().id, 5);
    assert_eq!(out.len(), 2 + 6 + 3);
    assert_eq!(out[1], GlCommand::Viewport { x: 0, y: 0, width: 100, height: 50 });
    assert_eq!(out[2], GlCommand::DeleteTexture { texture: 2 });
    assert_eq!(out[8..].to_vec(), clear_tail(200, 50));
    assert!(!pass.needs_resize(200, 50));
}

#[test]
fn cube_face_capture() {
    let mut out = Vec::new();
    let cube = LightCube::new(&mut out, VertexArray { id: 1 }, Buffer { id: 2 }, Buffer { id: 3 });
    let cubemap = TextureCube { id: 9, size: 64, internal_format: gl::RGB16F };
    let target = Texture2D { id: 8, width: 64, height: 64, internal_format: gl::RGB16F, format: 0 };
    let fb = Framebuffer::new(7, 64, 64);
    let source = Texture2D { id: 6, width: 1024, height: 512, internal_format: gl::RGB16F, format: gl::RGB };
    let mut out = Vec::new();
    cubemap.begin_capture(&mut out, &source, &fb);
    assert_eq!(
        out,
        vec![
            GlCommand::BindTextureUnit { unit: 0, texture: 6 },
            GlCommand::BindFramebuffer { target: gl::FRAMEBUFFER, framebuffer: 7 },
            GlCommand::Viewport { x: 0, y: 0, width: 64, height: 64 },
            GlCommand::Viewport { x: 0, y: 0, width: 64, height: 64 },
            GlCommand::Disable { capability: gl::CULL_FACE },
            GlCommand::ClearColor { red: 0, green: 0, blue: 0, alpha: 1.0f32.to_bits() },
        ]
    );
    let mut out = Vec::new();
    cubemap.capture_face(&mut out, &target, &cube, 5);
    assert_eq!(out.len(), 5);
    assert_eq!(out[1], GlCommand::Clear { mask: gl::COLOR_BUFFER_BIT });
    assert_eq!(out[2], GlCommand::BindVertexArray { vao: 1 });
    assert_eq!(out[3], GlCommand::DrawElements { mode: gl::TRIANGLES, count: 36, index_type: gl::UNSIGNED_INT });
    assert_eq!(
        out[4],
        GlCommand::CopyImageSubData {
            src_name: 8,
            src_target: gl::TEXTURE_2D,
            src_level: 0,
            src_x: 0,
            src_y: 0,
            src_z: 0,
            dst_name: 9,
            dst_target: gl::TEXTURE_CUBE_MAP,
            dst_level: 0,
            dst_x: 0,
            dst_y: 0,
            dst_z: 5,
            width: 64,
            height: 64,
            depth: 1,
        }
    );
    let mut out = Vec::new();
    cubemap.finish_capture(&mut out);
    assert_eq!(
        out,
        vec![GlCommand::Enable { capability: gl::CULL_FACE }, GlCommand::GenerateTextureMipmap { texture: 9 }]
    );
}

#[test]
fn equirectangular_capture_renders_six_faces() {
    let mut out = Vec::new();
    let cube = LightCube::new(&mut out, VertexArray { id: 1 }, Buffer { id: 2 }, Buffer { id: 3 });
    let cubemap = TextureCube { id: 9, size: 32, internal_format: gl::RGB16F };
    let target = Texture2D { id: 8, width: 32, height: 32, internal_format: gl::RGB16F, format: 0 };
    let fb = Framebuffer::new(7, 32, 32);
    let source = Texture2D { id: 6, width: 64, height: 32, internal_format: gl::RGB16F, format: gl::RGB };
    let program = Shader { id: 4 };
    let projection: Vec<u32> = (100..116).collect();
    let views: Vec<Vec<u32>> = (0..6u32).map(|f| (0..16).map(|k| f * 16 + k).collect()).collect();
    let mut out = Vec::new();
    cubemap.capture_equirectangular(&mut out, &program, &source, &fb, &target, &cube, &projection, &views);
    // program and uniforms, capture set-up, six faces of 6 calls, finish
    assert_eq!(out.len(), 3 + 6 + 6 * 6 + 2);
    assert_eq!(out[0], GlCommand::UseProgram { program: 4 });
    assert_eq!(out[1], GlCommand::SetUniformInt { program: 4, name: "equirectangularMap".to_owned(), value: 0 });
    assert_eq!(
        out[2],
        GlCommand::SetUniformMatrix4 { program: 4, name: "projection".to_owned(), columns: projection.clone() }
    );
    assert_eq!(out[3], GlCommand::BindTextureUnit { unit: 0, texture: 6 });
    for face in 0..6usize {
        let start = 9 + 6 * face;
        assert_eq!(
            out[start],
            GlCommand::SetUniformMatrix4 { program: 4, name: "view".to_owned(), columns: views[face].clone() }
        );
        match &out[start + 5] {
            GlCommand::CopyImageSubData { dst_name, dst_z, .. } => {
                assert_eq!(*dst_name, 9);
                assert_eq!(*dst_z, face as i32);
            }
            other => panic!("expected a face copy, got {:?}", other),
        }
    }
    assert_eq!(out[45], GlCommand::Enable { capability: gl::CULL_FACE });
    assert_eq!(out[46], GlCommand::GenerateTextureMipmap { texture: 9 });
}
