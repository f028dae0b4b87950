# pbr_renderer

A physically based OpenGL renderer (HDR pass, image-based lighting, glTF
models) split into a verified core and a thin GL/windowing shell.

* `src/` — the renderer core, verified with Verus.  Every GPU resource
  operation and draw (buffers, vertex arrays, textures, cube maps and their
  capture from equirectangular images, framebuffers, the HDR pass, meshes,
  models built from glTF primitives, the skybox, uniform blocks, and the
  deletion of GL objects) appends the exact OpenGL calls it makes to a
  command list (`command::GlCommand`); contracts state those calls and the
  resulting resource state.  Image files (8-bit and HDR) are decoded
  through the `image` crate (the trusted items `texture::decode_rgba8` and
  `texture::decode_rgb32f_bits`) and flipped to GL's row order by verified
  code.  Scene bookkeeping (lights, dirty-tracked
  uniform blocks, vertex interleaving, mipmap-chain lengths, asset paths)
  is verified too, as are the frame loop's decisions (`window`): the GL
  start-up state, how window events change the window state, which camera
  movements the held keys ask for, and when the mouse recentres.
  GL object names come from the caller, who creates them.
* `app/` — the program: the GL backend that creates objects and replays
  command lists, file reading, the GLFW window (performing the core's
  requests), the Dear ImGui settings panel, glTF import, and the
  floating-point parts (camera, capture matrices, tangent frames, SSAO
  kernel, uniform-block encoding).
* `tests/` — tests of the core on concrete values.
