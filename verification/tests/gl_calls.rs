use pbr_renderer::buffer::Buffer;
use pbr_renderer::command::{GlCommand, PixelData};
use pbr_renderer::gl_enums;
use pbr_renderer::shader::Shader;
use pbr_renderer::vao::VertexArray;

#[test]
fn enumerants_match_the_gl_bindings() {
    assert_eq!(gl_enums::TEXTURE_2D, gl::TEXTURE_2D);
    assert_eq!(gl_enums::TEXTURE_CUBE_MAP, gl::TEXTURE_CUBE_MAP);
    assert_eq!(gl_enums::TEXTURE_WRAP_S, gl::TEXTURE_WRAP_S);
    assert_eq!(gl_enums::TEXTURE_WRAP_T, gl::TEXTURE_WRAP_T);
    assert_eq!(gl_enums::TEXTURE_WRAP_R, gl::TEXTURE_WRAP_R);
    assert_eq!(gl_enums::TEXTURE_MIN_FILTER, gl::TEXTURE_MIN_FILTER);
    assert_eq!(gl_enums::TEXTURE_MAG_FILTER, gl::TEXTURE_MAG_FILTER);
    assert_eq!(gl_enums::REPEAT, gl::REPEAT);
    assert_eq!(gl_enums::CLAMP_TO_EDGE, gl::CLAMP_TO_EDGE);
    assert_eq!(gl_enums::NEAREST, gl::NEAREST);
    assert_eq!(gl_enums::LINEAR, gl::LINEAR);
    assert_eq!(gl_enums::LINEAR_MIPMAP_LINEAR, gl::LINEAR_MIPMAP_LINEAR);
    assert_eq!(gl_enums::RGB, gl::RGB);
    assert_eq!(gl_enums::RGBA, gl::RGBA);
    assert_eq!(gl_enums::RGB8, gl::RGB8);
    assert_eq!(gl_enums::RGBA8, gl::RGBA8);
    assert_eq!(gl_enums::SRGB8, gl::SRGB8);
    assert_eq!(gl_enums::SRGB8_ALPHA8, gl::SRGB8_ALPHA8);
    assert_eq!(gl_enums::RGB32F, gl::RGB32F);
    assert_eq!(gl_enums::RGB16F, gl::RGB16F);
    assert_eq!(gl_enums::RGBA16F, gl::RGBA16F);
    assert_eq!(gl_enums::R16F, gl::R16F);
    assert_eq!(gl_enums::DEPTH_COMPONENT24, gl::DEPTH_COMPONENT24);
    assert_eq!(gl_enums::UNSIGNED_BYTE, gl::UNSIGNED_BYTE);
    assert_eq!(gl_enums::UNSIGNED_INT, gl::UNSIGNED_INT);
    assert_eq!(gl_enums::FLOAT, gl::FLOAT);
    assert_eq!(gl_enums::TRIANGLES, gl::TRIANGLES);
    assert_eq!(gl_enums::TRIANGLE_STRIP, gl::TRIANGLE_STRIP);
    assert_eq!(gl_enums::FRAMEBUFFER, gl::FRAMEBUFFER);
    assert_eq!(gl_enums::COLOR_ATTACHMENT0, gl::COLOR_ATTACHMENT0);
    assert_eq!(gl_enums::DEPTH_ATTACHMENT, gl::DEPTH_ATTACHMENT);
    assert_eq!(gl_enums::UNIFORM_BUFFER, gl::UNIFORM_BUFFER);
    assert_eq!(gl_enums::STATIC_DRAW, gl::STATIC_DRAW);
    assert_eq!(gl_enums::DYNAMIC_DRAW, gl::DYNAMIC_DRAW);
    assert_eq!(gl_enums::LESS, gl::LESS);
    assert_eq!(gl_enums::LEQUAL, gl::LEQUAL);
    assert_eq!(gl_enums::CULL_FACE, gl::CULL_FACE);
    assert_eq!(gl_enums::DEPTH_TEST, gl::DEPTH_TEST);
    assert_eq!(gl_enums::BACK, gl::BACK);
    assert_eq!(gl_enums::TEXTURE_CUBE_MAP_SEAMLESS, gl::TEXTURE_CUBE_MAP_SEAMLESS);
    assert_eq!(gl_enums::COLOR_BUFFER_BIT, gl::COLOR_BUFFER_BIT);
    assert_eq!(gl_enums::DEPTH_BUFFER_BIT, gl::DEPTH_BUFFER_BIT);
    assert_eq!(gl_enums::MAX, gl::MAX);
}

#[test]
fn buffer_upload_allocate_write_and_bind_base() {
    let buffer = Buffer { id: 7 };
    let mut out = Vec::new();
    buffer.upload(&mut out, &[1, 2, 3], gl_enums::STATIC_DRAW);
    buffer.allocate(&mut out, 64, gl_enums::DYNAMIC_DRAW);
    buffer.write(&mut out, &[9, 8]);
    buffer.bind_base(&mut out, 2);
    assert_eq!(
        out,
        vec![
            GlCommand::NamedBufferData { buffer: 7, words: vec![1, 2, 3], usage: gl::STATIC_DRAW },
            GlCommand::NamedBufferAllocate { buffer: 7, byte_size: 64, usage: gl::DYNAMIC_DRAW },
            GlCommand::NamedBufferSubData { buffer: 7, words: vec![9, 8] },
            GlCommand::BindBufferBase { target: gl::UNIFORM_BUFFER, index: 2, buffer: 7 },
        ]
    );
}

#[test]
fn commands_append_after_existing_ones() {
    let shader = Shader { id: 3 };
    let mut out = vec![GlCommand::Clear { mask: gl::COLOR_BUFFER_BIT }];
    shader.bind(&mut out);
    assert_eq!(
        out,
        vec![GlCommand::Clear { mask: gl::COLOR_BUFFER_BIT }, GlCommand::UseProgram { program: 3 }]
    );
}

#[test]
fn vertex_array_setup_commands() {
    let vao = VertexArray { id: 4 };
    let vbo = Buffer { id: 5 };
    let ebo = Buffer { id: 6 };
    let mut out = Vec::new();
    vao.set_vertex_buffer(&mut out, 0, &vbo, 16, 48);
    vao.enable_attribute(&mut out, 2, 4, 0, 24);
    vao.set_element_buffer(&mut out, &ebo);
    vao.bind(&mut out);
    assert_eq!(
        out,
        vec![
            GlCommand::VertexArrayVertexBuffer { vao: 4, binding_index: 0, buffer: 5, offset: 16, stride: 48 },
            GlCommand::EnableVertexArrayAttrib { vao: 4, attrib_index: 2 },
            GlCommand::VertexArrayAttribFormat {
                vao: 4,
                attrib_index: 2,
                size: 4,
                component_type: gl::FLOAT,
                normalized: false,
                relative_offset: 24,
            },
            GlCommand::VertexArrayAttribBinding { vao: 4, attrib_index: 2, binding_index: 0 },
            GlCommand::VertexArrayElementBuffer { vao: 4, buffer: 6 },
            GlCommand::BindVertexArray { vao: 4 },
        ]
    );
}

#[test]
fn pixel_data_keeps_its_kind() {
    assert_ne!(PixelData::Bytes(vec![1, 0, 0, 0]), PixelData::Words(vec![1]));
}
