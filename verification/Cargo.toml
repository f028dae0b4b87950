[package]
name = "pbr_renderer"
version = "0.1.0"
edition = "2021"
publish = false

[dependencies]
gl = "0.14"
glam = "*"
glfw = "*"
gltf = "*"
image = "*"
imgui = "*"
imgui-opengl-renderer = "*"
rand = "0.9"
