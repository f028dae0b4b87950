//! Uniform buffers shared by all shaders: render settings (binding 0),
//! camera (binding 1) and lights (binding 2).
//!
//! Each block keeps a CPU copy and a dirty flag; `update` hands out exactly
//! the blocks changed since the last update, for upload.  The manager is
//! generic over the block layouts, which hold floating-point data that only
//! the GPU interprets.

use vstd::prelude::*;

use crate::buffer::Buffer;
use crate::command::{calls_of, GlCall, GlCommand};
use crate::gl_enums::{DYNAMIC_DRAW, MAX, UNIFORM_BUFFER};

verus! {

/// Number of light slots in the lights block.
pub const LIGHT_SLOTS: usize = 1;

/// The lights block: `count[0]` lights are in use (the rest of `count` pads
/// the std140 layout).
#[derive(Clone, Copy)]
pub struct LightsUniforms<L> {
    pub count: [u32; 4],
    pub lights: [L; LIGHT_SLOTS],
}

/// The blocks to upload after an update: the buffer name and its new
/// contents, for each block that changed.
pub struct UboWrites<S, C, L> {
    pub settings: Option<(u32, S)>,
    pub camera: Option<(u32, C)>,
    pub lights: Option<(u32, LightsUniforms<L>)>,
}

/// What a uniform manager holds: each block's contents and dirty flag, and
/// the buffer it lives in.
pub struct UboState<S, C, L> {
    pub settings: S,
    pub settings_dirty: bool,
    pub settings_buffer: u32,
    pub camera: C,
    pub camera_dirty: bool,
    pub camera_buffer: u32,
    pub lights: LightsUniforms<L>,
    pub lights_dirty: bool,
    pub lights_buffer: u32,
}

/// The uploads that an update of `s` performs.
pub open spec fn writes_of<S, C, L>(s: UboState<S, C, L>) -> UboWrites<S, C, L> {
    UboWrites {
        settings: if s.settings_dirty { Some((s.settings_buffer, s.settings)) } else { None },
        camera: if s.camera_dirty { Some((s.camera_buffer, s.camera)) } else { None },
        lights: if s.lights_dirty { Some((s.lights_buffer, s.lights)) } else { None },
    }
}

/// `s` after an update: the contents kept, every block clean.
pub open spec fn updated<S, C, L>(s: UboState<S, C, L>) -> UboState<S, C, L> {
    UboState { settings_dirty: false, camera_dirty: false, lights_dirty: false, ..s }
}

/// `s` and `t` agree on the settings and camera blocks and on the buffers.
pub open spec fn same_except_lights<S, C, L>(s: UboState<S, C, L>, t: UboState<S, C, L>) -> bool {
    &&& s.settings == t.settings
    &&& s.settings_dirty == t.settings_dirty
    &&& s.settings_buffer == t.settings_buffer
    &&& s.camera == t.camera
    &&& s.camera_dirty == t.camera_dirty
    &&& s.camera_buffer == t.camera_buffer
    &&& s.lights_buffer == t.lights_buffer
}

/// The first contents of a uniform buffer: its size in bytes and its
/// initial block, encoded as 32-bit words.
pub struct BlockImage {
    pub byte_size: usize,
    pub words: Vec<u32>,
}

/// The calls that give uniform buffer `buffer` dynamic storage of
/// `byte_size` bytes and write `words` at its start.
pub open spec fn block_setup_calls(buffer: u32, byte_size: usize, words: Seq<u32>) -> Seq<GlCall> {
    seq![
        GlCall::NamedBufferAllocate { buffer, byte_size, usage: DYNAMIC_DRAW },
        GlCall::NamedBufferSubData { buffer, words },
    ]
}

/// Manages the settings, camera and lights uniform blocks.
pub struct UboManager<S, C, L> {
    settings: S,
    settings_ubo: Buffer,
    settings_dirty: bool,
    camera: C,
    camera_ubo: Buffer,
    camera_dirty: bool,
    lights: LightsUniforms<L>,
    lights_ubo: Buffer,
    lights_dirty: bool,
}

impl<S, C, L> View for UboManager<S, C, L> {
    type V = UboState<S, C, L>;

    closed spec fn view(&self) -> UboState<S, C, L> {
        UboState {
            settings: self.settings,
            settings_dirty: self.settings_dirty,
            settings_buffer: self.settings_ubo.id,
            camera: self.camera,
            camera_dirty: self.camera_dirty,
            camera_buffer: self.camera_ubo.id,
            lights: self.lights,
            lights_dirty: self.lights_dirty,
            lights_buffer: self.lights_ubo.id,
        }
    }
}

impl<S: Copy, C: Copy, L: Copy> UboManager<S, C, L> {
    /// Takes over the three uniform buffers, which will hold `settings`,
    /// `camera` and a lights block of no lights (its slot filled with
    /// `empty_light`): each buffer in turn gets dynamic storage of its
    /// block's size and the encoded block as first contents (`*_image`);
    /// then the buffers are bound to binding points 0, 1 and 2.
    pub fn new(
        out: &mut Vec<GlCommand>,
        settings_ubo: Buffer,
        camera_ubo: Buffer,
        lights_ubo: Buffer,
        settings: S,
        camera: C,
        empty_light: L,
        settings_image: BlockImage,
        camera_image: BlockImage,
        lights_image: BlockImage,
    ) -> (manager: Self)
        ensures
            manager@.settings == settings,
            manager@.camera == camera,
            manager@.lights.count@ == seq![0u32, 0u32, 0u32, 0u32],
            manager@.lights.lights@ == seq![empty_light],
            !manager@.settings_dirty,
            !manager@.camera_dirty,
            !manager@.lights_dirty,
            manager@.settings_buffer == settings_ubo.id,
            manager@.camera_buffer == camera_ubo.id,
            manager@.lights_buffer == lights_ubo.id,
            calls_of(final(out)@) == calls_of(old(out)@) + block_setup_calls(
                settings_ubo.id,
                settings_image.byte_size,
                settings_image.words@,
            ) + block_setup_calls(camera_ubo.id, camera_image.byte_size, camera_image.words@)
                + block_setup_calls(lights_ubo.id, lights_image.byte_size, lights_image.words@) + seq![
                GlCall::BindBufferBase { target: UNIFORM_BUFFER, index: 0, buffer: settings_ubo.id },
                GlCall::BindBufferBase { target: UNIFORM_BUFFER, index: 1, buffer: camera_ubo.id },
                GlCall::BindBufferBase { target: UNIFORM_BUFFER, index: 2, buffer: lights_ubo.id },
            ],
    {
        let lights = LightsUniforms { count: [0, 0, 0, 0], lights: [empty_light] };
        settings_ubo.allocate(out, settings_image.byte_size, DYNAMIC_DRAW);
        settings_ubo.write(out, settings_image.words.as_slice());
        camera_ubo.allocate(out, camera_image.byte_size, DYNAMIC_DRAW);
        camera_ubo.write(out, camera_image.words.as_slice());
        lights_ubo.allocate(out, lights_image.byte_size, DYNAMIC_DRAW);
        lights_ubo.write(out, lights_image.words.as_slice());
        settings_ubo.bind_base(out, 0);
        camera_ubo.bind_base(out, 1);
        lights_ubo.bind_base(out, 2);
        assert(calls_of(out@) =~= calls_of(old(out)@) + block_setup_calls(
            settings_ubo.id,
            settings_image.byte_size,
            settings_image.words@,
        ) + block_setup_calls(camera_ubo.id, camera_image.byte_size, camera_image.words@)
            + block_setup_calls(lights_ubo.id, lights_image.byte_size, lights_image.words@) + seq![
            GlCall::BindBufferBase { target: UNIFORM_BUFFER, index: 0, buffer: settings_ubo.id },
            GlCall::BindBufferBase { target: UNIFORM_BUFFER, index: 1, buffer: camera_ubo.id },
            GlCall::BindBufferBase { target: UNIFORM_BUFFER, index: 2, buffer: lights_ubo.id },
        ]);
        assert(lights.count@ =~= seq![0u32, 0u32, 0u32, 0u32]);
        assert(lights.lights@ =~= seq![empty_light]);
        UboManager {
            settings,
            settings_ubo,
            settings_dirty: false,
            camera,
            camera_ubo,
            camera_dirty: false,
            lights,
            lights_ubo,
            lights_dirty: false,
        }
    }

    /// Deletes the three uniform buffers.
    pub fn delete(self, out: &mut Vec<GlCommand>)
        ensures
            calls_of(final(out)@) == calls_of(old(out)@) + seq![
                GlCall::DeleteBuffer { buffer: self@.settings_buffer },
                GlCall::DeleteBuffer { buffer: self@.camera_buffer },
                GlCall::DeleteBuffer { buffer: self@.lights_buffer },
            ],
    {
        let ghost v = self@;
        self.settings_ubo.delete(out);
        self.camera_ubo.delete(out);
        self.lights_ubo.delete(out);
        assert(calls_of(out@) =~= calls_of(old(out)@) + seq![
            GlCall::DeleteBuffer { buffer: v.settings_buffer },
            GlCall::DeleteBuffer { buffer: v.camera_buffer },
            GlCall::DeleteBuffer { buffer: v.lights_buffer },
        ]);
    }

    /// Replaces the settings block.
    pub fn set_settings(&mut self, settings: S)
        ensures
            final(self)@ == (UboState { settings, settings_dirty: true, ..old(self)@ }),
    {
        self.settings = settings;
        self.settings_dirty = true;
    }

    /// Replaces the camera block.
    pub fn set_camera(&mut self, camera: C)
        ensures
            final(self)@ == (UboState { camera, camera_dirty: true, ..old(self)@ }),
    {
        self.camera = camera;
        self.camera_dirty = true;
    }

    /// Replaces light slot `index` and marks all slots in use; an index past
    /// the slots is ignored.
    pub fn set_light(&mut self, index: usize, light: L)
        ensures
            index < LIGHT_SLOTS ==> {
                &&& same_except_lights(final(self)@, old(self)@)
                &&& final(self)@.lights.lights@ == old(self)@.lights.lights@.update(index as int, light)
                &&& final(self)@.lights.count@ == old(self)@.lights.count@.update(0, LIGHT_SLOTS as u32)
                &&& final(self)@.lights_dirty
            },
            index >= LIGHT_SLOTS ==> final(self)@ == old(self)@,
    {
        if index < LIGHT_SLOTS {
            self.lights.lights[index] = light;
            self.lights.count[0] = LIGHT_SLOTS as u32;
            self.lights_dirty = true;
        }
    }

    /// Replaces the lights in use by `lights`, which must fit the slots.
    pub fn set_lights(&mut self, lights: Vec<L>)
        requires
            lights@.len() <= LIGHT_SLOTS,
        ensures
            same_except_lights(final(self)@, old(self)@),
            final(self)@.lights.lights@ == lights@ + old(self)@.lights.lights@.skip(lights@.len() as int),
            final(self)@.lights.count@ == old(self)@.lights.count@.update(0, lights@.len() as u32),
            final(self)@.lights_dirty,
    {
        let count = if lights.len() < MAX as usize { lights.len() } else { MAX as usize };
        let mut i: usize = 0;
        while i < count
            invariant
                count == lights@.len(),
                count <= LIGHT_SLOTS,
                i <= count,
                same_except_lights(self@, old(self)@),
                self.lights.count@ == old(self)@.lights.count@,
                self.lights.lights@ == lights@.take(i as int) + old(self)@.lights.lights@.skip(i as int),
            decreases count - i,
        {
            self.lights.lights[i] = lights[i];
            i = i + 1;
            assert(self.lights.lights@ =~= lights@.take(i as int) + old(self)@.lights.lights@.skip(i as int));
        }
        assert(lights@.take(count as int) =~= lights@);
        self.lights.count[0] = count as u32;
        self.lights_dirty = true;
    }

    /// Hands out every block changed since the last update and marks all
    /// blocks clean.
    pub fn update(&mut self) -> (writes: UboWrites<S, C, L>)
        ensures
            writes == writes_of(old(self)@),
            final(self)@ == updated(old(self)@),
    {
        let settings = if self.settings_dirty {
            self.settings_dirty = false;
            Some((self.settings_ubo.id, self.settings))
        } else {
            None
        };
        let camera = if self.camera_dirty {
            self.camera_dirty = false;
            Some((self.camera_ubo.id, self.camera))
        } else {
            None
        };
        let lights = if self.lights_dirty {
            self.lights_dirty = false;
            Some((self.lights_ubo.id, self.lights))
        } else {
            None
        };
        UboWrites { settings, camera, lights }
    }
}

/// An update leaves nothing to upload: a second update right after the
/// first writes no block.
pub proof fn law_update_twice_writes_nothing<S, C, L>(s: UboState<S, C, L>)
    ensures
        writes_of(updated(s)).settings is None,
        writes_of(updated(s)).camera is None,
        writes_of(updated(s)).lights is None,
{
}

/// An update keeps every block's contents and buffer.
pub proof fn law_update_keeps_contents<S, C, L>(s: UboState<S, C, L>)
    ensures
        updated(s).settings == s.settings,
        updated(s).camera == s.camera,
        updated(s).lights == s.lights,
        updated(s).settings_buffer == s.settings_buffer,
        updated(s).camera_buffer == s.camera_buffer,
        updated(s).lights_buffer == s.lights_buffer,
{
}

/// Settings set since the last update are what the next update uploads,
/// into the settings buffer; likewise for the camera block.
pub proof fn law_update_uploads_what_was_set<S, C, L>(s: UboState<S, C, L>, settings: S, camera: C)
    ensures
        writes_of(UboState { settings, settings_dirty: true, ..s }).settings == Some(
            (s.settings_buffer, settings),
        ),
        writes_of(UboState { camera, camera_dirty: true, ..s }).camera == Some((s.camera_buffer, camera)),
{
}

/// Each block is uploaded by an update exactly when it changed since the
/// last one, with its current contents and into its own buffer, whatever
/// the other blocks' state: a block that did not change is not uploaded.
pub proof fn law_update_uploads_each_changed_block<S, C, L>(s: UboState<S, C, L>)
    ensures
        s.settings_dirty ==> writes_of(s).settings == Some((s.settings_buffer, s.settings)),
        !s.settings_dirty ==> writes_of(s).settings is None,
        s.camera_dirty ==> writes_of(s).camera == Some((s.camera_buffer, s.camera)),
        !s.camera_dirty ==> writes_of(s).camera is None,
        s.lights_dirty ==> writes_of(s).lights == Some((s.lights_buffer, s.lights)),
        !s.lights_dirty ==> writes_of(s).lights is None,
{
}

/// What an update hands out for one block does not depend on whether the
/// other blocks changed: changing the other blocks' flags and contents
/// leaves that block's upload as it is.
pub proof fn law_update_blocks_are_independent<S, C, L>(
    s: UboState<S, C, L>,
    settings: S,
    settings_dirty: bool,
    camera: C,
    camera_dirty: bool,
    lights: LightsUniforms<L>,
    lights_dirty: bool,
)
    ensures
        writes_of(UboState { camera, camera_dirty, lights, lights_dirty, ..s }).settings == writes_of(s).settings,
        writes_of(UboState { settings, settings_dirty, lights, lights_dirty, ..s }).camera == writes_of(s).camera,
        writes_of(UboState { settings, settings_dirty, camera, camera_dirty, ..s }).lights == writes_of(s).lights,
{
}

/// Lights set since the last update are what the next update uploads, into
/// the lights buffer, even when the settings and camera changed as well.
pub proof fn law_update_uploads_new_lights<S, C, L>(s: UboState<S, C, L>, lights: LightsUniforms<L>)
    ensures
        writes_of(UboState { lights, lights_dirty: true, settings_dirty: true, camera_dirty: true, ..s }).lights
            == Some((s.lights_buffer, lights)),
        writes_of(UboState { lights, lights_dirty: true, ..s }).lights == Some((s.lights_buffer, lights)),
{
}

} // verus!
