//! The decisions of the application's frame loop: how window events change
//! the window state, which camera movements the held keys ask for, and what
//! the mouse does this frame.  The windowing system, the clock and the
//! floating-point camera stay with the caller, which performs the requests
//! returned here.

use vstd::prelude::*;

use crate::camera::CameraMovement;
use crate::command::{calls_of, emit, GlCall, GlCommand};
use crate::gl_enums::{
    BACK, COLOR_BUFFER_BIT, CULL_FACE, DEPTH_BUFFER_BIT, DEPTH_TEST, TEXTURE_CUBE_MAP_SEAMLESS,
};
use crate::hdr_pass::ONE_F32_BITS;

verus! {

/// The bit pattern of the `f32` nearest to 0.1, the grey of a new frame.
pub const FRAME_GREY_F32_BITS: u32 = 0x3DCC_CCCD;

/// A key whose press the frame loop reacts to.
#[derive(Clone, Copy, PartialEq, Eq, Structural, Debug)]
pub enum InputKey {
    /// Closes the window.
    Escape,
    /// Locks or frees the mouse.
    E,
    /// Shows or hides the settings overlay.
    F3,
    /// Any other key.
    Other,
}

/// A window event, as the frame loop sees it.
#[derive(Clone, Copy, PartialEq, Eq, Structural, Debug)]
pub enum WindowEvent {
    /// The framebuffer now has this size in pixels.
    FramebufferSize { width: i32, height: i32 },
    /// A key went down.
    KeyPress(InputKey),
    /// Anything else (key releases and repeats, cursor motion, ...).
    Other,
}

/// What the caller must do to the window after an event.
#[derive(Clone, Copy, PartialEq, Eq, Structural, Debug)]
pub enum WindowRequest {
    Nothing,
    /// Mark the window as about to close.
    Close,
    /// Capture and hide the cursor (`true`) or release it (`false`).
    LockCursor(bool),
}

/// What the mouse does to the camera this frame.
#[derive(Clone, Copy, PartialEq, Eq, Structural, Debug)]
pub enum MouseStep {
    /// The mouse is free: the camera does not look around.
    Skip,
    /// First frame of a capture: take the cursor position as the reference,
    /// so the camera turns by nothing.
    Recenter,
    /// Turn the camera by the cursor's motion since the last frame.
    Track,
}

/// The keys that are held down during a frame.
#[derive(Clone, Copy, PartialEq, Eq, Structural, Debug)]
pub struct HeldKeys {
    pub w: bool,
    pub s: bool,
    pub a: bool,
    pub d: bool,
    pub space: bool,
    pub left_shift: bool,
    pub left_control: bool,
}

/// One camera movement of a frame, at `speed_factor` times the frame time.
#[derive(Clone, Copy, PartialEq, Eq, Structural, Debug)]
pub struct MovementStep {
    pub movement: CameraMovement,
    pub speed_factor: u32,
}

/// The window state that the frame loop keeps between frames.
#[derive(Clone, Copy, PartialEq, Eq, Structural, Debug)]
pub struct WindowState {
    /// Framebuffer size in pixels.
    pub width: i32,
    pub height: i32,
    /// The framebuffer changed size since the flag was last cleared.
    pub resized: bool,
    /// The cursor is captured and moves the camera.
    pub mouse_locked: bool,
    /// The next captured frame takes the cursor as its reference.
    pub first_mouse: bool,
    /// The settings overlay is shown.
    pub show_imgui: bool,
}

/// The state after `event`.
pub open spec fn next_state(s: WindowState, event: WindowEvent) -> WindowState {
    match event {
        WindowEvent::FramebufferSize { width, height } => WindowState {
            width,
            height,
            resized: true,
            ..s
        },
        WindowEvent::KeyPress(InputKey::E) => WindowState {
            mouse_locked: !s.mouse_locked,
            first_mouse: if s.mouse_locked { true } else { s.first_mouse },
            ..s
        },
        WindowEvent::KeyPress(InputKey::F3) => WindowState { show_imgui: !s.show_imgui, ..s },
        _ => s,
    }
}

/// What the window must do after `event` in state `s`.
pub open spec fn request_of(s: WindowState, event: WindowEvent) -> WindowRequest {
    match event {
        WindowEvent::KeyPress(InputKey::Escape) => WindowRequest::Close,
        WindowEvent::KeyPress(InputKey::E) => WindowRequest::LockCursor(!s.mouse_locked),
        _ => WindowRequest::Nothing,
    }
}

/// The GL calls an event makes: a resize sets the viewport to the new size.
pub open spec fn event_calls(event: WindowEvent) -> Seq<GlCall> {
    match event {
        WindowEvent::FramebufferSize { width, height } => seq![
            GlCall::Viewport { x: 0, y: 0, width, height },
        ],
        _ => Seq::empty(),
    }
}

/// What the mouse does in state `s`.
pub open spec fn mouse_step_of(s: WindowState) -> MouseStep {
    if !s.mouse_locked {
        MouseStep::Skip
    } else if s.first_mouse {
        MouseStep::Recenter
    } else {
        MouseStep::Track
    }
}

/// One movement when `held`, none otherwise.
pub open spec fn step_if(held: bool, movement: CameraMovement, speed_factor: u32) -> Seq<MovementStep> {
    if held {
        seq![MovementStep { movement, speed_factor }]
    } else {
        Seq::empty()
    }
}

/// The movements of a frame, in order: forward (W), backward (S), left (A),
/// right (D) and up (space), each twice as fast while left shift is held,
/// then down (left control), always at the plain speed.
pub open spec fn movement_steps_of(held: HeldKeys) -> Seq<MovementStep> {
    let boost: u32 = if held.left_shift { 2 } else { 1 };
    step_if(held.w, CameraMovement::Forward, boost) + step_if(held.s, CameraMovement::Backward, boost)
        + step_if(held.a, CameraMovement::Left, boost) + step_if(held.d, CameraMovement::Right, boost)
        + step_if(held.space, CameraMovement::Up, boost) + step_if(
        held.left_control,
        CameraMovement::Down,
        1,
    )
}

/// The calls that start a frame: clear colour and depth to opaque grey 0.1.
pub open spec fn frame_clear_calls() -> Seq<GlCall> {
    seq![
        GlCall::ClearColor {
            red: FRAME_GREY_F32_BITS,
            green: FRAME_GREY_F32_BITS,
            blue: FRAME_GREY_F32_BITS,
            alpha: ONE_F32_BITS,
        },
        GlCall::Clear { mask: COLOR_BUFFER_BIT | DEPTH_BUFFER_BIT },
    ]
}

impl WindowState {
    /// The state of a new window with a `width` x `height` framebuffer: not
    /// resized, mouse captured (the first frame recentres), overlay shown.
    pub fn new(width: i32, height: i32) -> (s: WindowState)
        ensures
            s == (WindowState {
                width,
                height,
                resized: false,
                mouse_locked: true,
                first_mouse: true,
                show_imgui: true,
            }),
    {
        WindowState { width, height, resized: false, mouse_locked: true, first_mouse: true, show_imgui: true }
    }

    /// Reacts to one window event: a resize records the new size, raises the
    /// resized flag and sets the viewport; Escape asks to close; E frees or
    /// captures the mouse (freeing it makes the next capture recentre); F3
    /// shows or hides the overlay; anything else changes nothing.
    pub fn handle_event(&mut self, out: &mut Vec<GlCommand>, event: WindowEvent) -> (request: WindowRequest)
        ensures
            *final(self) == next_state(*old(self), event),
            request == request_of(*old(self), event),
            calls_of(final(out)@) == calls_of(old(out)@) + event_calls(event),
    {
        match event {
            WindowEvent::FramebufferSize { width, height } => {
                self.width = width;
                self.height = height;
                self.resized = true;
                emit(out, GlCommand::Viewport { x: 0, y: 0, width, height });
                WindowRequest::Nothing
            },
            WindowEvent::KeyPress(InputKey::Escape) => {
                assert(calls_of(out@) =~= calls_of(old(out)@) + event_calls(event));
                WindowRequest::Close
            },
            WindowEvent::KeyPress(InputKey::E) => {
                self.mouse_locked = !self.mouse_locked;
                if !self.mouse_locked {
                    self.first_mouse = true;
                }
                assert(calls_of(out@) =~= calls_of(old(out)@) + event_calls(event));
                WindowRequest::LockCursor(self.mouse_locked)
            },
            WindowEvent::KeyPress(InputKey::F3) => {
                self.show_imgui = !self.show_imgui;
                assert(calls_of(out@) =~= calls_of(old(out)@) + event_calls(event));
                WindowRequest::Nothing
            },
            _ => {
                assert(calls_of(out@) =~= calls_of(old(out)@) + event_calls(event));
                WindowRequest::Nothing
            },
        }
    }

    /// The framebuffer size in pixels.
    pub fn framebuffer_size(&self) -> (size: (i32, i32))
        ensures
            size == (self.width, self.height),
    {
        (self.width, self.height)
    }

    /// Whether the framebuffer changed size since the flag was last cleared.
    pub fn was_resized(&self) -> (resized: bool)
        ensures
            resized == self.resized,
    {
        self.resized
    }

    /// Lowers the resized flag.
    pub fn clear_resized_flag(&mut self)
        ensures
            *final(self) == (WindowState { resized: false, ..*old(self) }),
    {
        self.resized = false;
    }

    /// What the mouse does this frame; a recentring frame uses up the
    /// recentre, so the following frames track.
    pub fn mouse_step(&mut self) -> (step: MouseStep)
        ensures
            step == mouse_step_of(*old(self)),
            *final(self) == (if step == MouseStep::Recenter {
                WindowState { first_mouse: false, ..*old(self) }
            } else {
                *old(self)
            }),
    {
        if !self.mouse_locked {
            MouseStep::Skip
        } else if self.first_mouse {
            self.first_mouse = false;
            MouseStep::Recenter
        } else {
            MouseStep::Track
        }
    }
}

/// The camera movements that the held keys ask for this frame.
pub fn movement_steps(held: HeldKeys) -> (steps: Vec<MovementStep>)
    ensures
        steps@ == movement_steps_of(held),
{
    let boost: u32 = if held.left_shift { 2 } else { 1 };
    let mut steps: Vec<MovementStep> = Vec::new();
    if held.w {
        steps.push(MovementStep { movement: CameraMovement::Forward, speed_factor: boost });
    }
    assert(steps@ =~= step_if(held.w, CameraMovement::Forward, boost));
    let ghost after_w = steps@;
    if held.s {
        steps.push(MovementStep { movement: CameraMovement::Backward, speed_factor: boost });
    }
    assert(steps@ =~= after_w + step_if(held.s, CameraMovement::Backward, boost));
    let ghost after_s = steps@;
    if held.a {
        steps.push(MovementStep { movement: CameraMovement::Left, speed_factor: boost });
    }
    assert(steps@ =~= after_s + step_if(held.a, CameraMovement::Left, boost));
    let ghost after_a = steps@;
    if held.d {
        steps.push(MovementStep { movement: CameraMovement::Right, speed_factor: boost });
    }
    assert(steps@ =~= after_a + step_if(held.d, CameraMovement::Right, boost));
    let ghost after_d = steps@;
    if held.space {
        steps.push(MovementStep { movement: CameraMovement::Up, speed_factor: boost });
    }
    assert(steps@ =~= after_d + step_if(held.space, CameraMovement::Up, boost));
    let ghost after_space = steps@;
    if held.left_control {
        steps.push(MovementStep { movement: CameraMovement::Down, speed_factor: 1 });
    }
    assert(steps@ =~= after_space + step_if(held.left_control, CameraMovement::Down, 1));
    steps
}

/// The GL state a new window starts from: the viewport covering the
/// `width` x `height` framebuffer, depth testing, back-face culling and
/// seamless cube-map filtering.
pub open spec fn initial_state_calls(width: i32, height: i32) -> Seq<GlCall> {
    seq![
        GlCall::Viewport { x: 0, y: 0, width, height },
        GlCall::Enable { capability: DEPTH_TEST },
        GlCall::Enable { capability: CULL_FACE },
        GlCall::CullFace { mode: BACK },
        GlCall::Enable { capability: TEXTURE_CUBE_MAP_SEAMLESS },
    ]
}

/// Sets up the GL state of a new window (see `initial_state_calls`).
pub fn set_initial_state(out: &mut Vec<GlCommand>, width: i32, height: i32)
    ensures
        calls_of(final(out)@) == calls_of(old(out)@) + initial_state_calls(width, height),
{
    emit(out, GlCommand::Viewport { x: 0, y: 0, width, height });
    emit(out, GlCommand::Enable { capability: DEPTH_TEST });
    emit(out, GlCommand::Enable { capability: CULL_FACE });
    emit(out, GlCommand::CullFace { mode: BACK });
    emit(out, GlCommand::Enable { capability: TEXTURE_CUBE_MAP_SEAMLESS });
    assert(calls_of(out@) =~= calls_of(old(out)@) + initial_state_calls(width, height));
}

/// Starts a frame on the bound framebuffer: clears colour and depth to
/// opaque grey 0.1.
pub fn clear_frame(out: &mut Vec<GlCommand>)
    ensures
        calls_of(final(out)@) == calls_of(old(out)@) + frame_clear_calls(),
{
    emit(
        out,
        GlCommand::ClearColor {
            red: FRAME_GREY_F32_BITS,
            green: FRAME_GREY_F32_BITS,
            blue: FRAME_GREY_F32_BITS,
            alpha: ONE_F32_BITS,
        },
    );
    emit(out, GlCommand::Clear { mask: COLOR_BUFFER_BIT | DEPTH_BUFFER_BIT });
    assert(calls_of(out@) =~= calls_of(old(out)@) + frame_clear_calls());
}

/// Pressing F3 twice leaves the window state as it was.
pub proof fn law_overlay_toggle_twice_restores(s: WindowState)
    ensures
        next_state(next_state(s, WindowEvent::KeyPress(InputKey::F3)), WindowEvent::KeyPress(InputKey::F3))
            == s,
{
}

/// Pressing E twice leaves the window state as it was, except that the
/// mouse, captured or not, recentres on its next captured frame: the camera
/// never jumps by the cursor's travel while it was free.
pub proof fn law_mouse_toggle_twice_recentres(s: WindowState)
    ensures
        next_state(next_state(s, WindowEvent::KeyPress(InputKey::E)), WindowEvent::KeyPress(InputKey::E))
            == (WindowState { first_mouse: true, ..s }),
        s.mouse_locked ==> mouse_step_of(
            next_state(next_state(s, WindowEvent::KeyPress(InputKey::E)), WindowEvent::KeyPress(InputKey::E)),
        ) == MouseStep::Recenter,
{
}

/// Escape always asks to close the window, whatever the state (mouse
/// captured or free, overlay shown or hidden), and changes no state.
pub proof fn law_escape_always_closes(s: WindowState)
    ensures
        request_of(s, WindowEvent::KeyPress(InputKey::Escape)) == WindowRequest::Close,
        next_state(s, WindowEvent::KeyPress(InputKey::Escape)) == s,
        event_calls(WindowEvent::KeyPress(InputKey::Escape)).len() == 0,
{
}

/// The key that moves the camera in direction `m`: W forward, S backward,
/// A left, D right, space up, left control down.
pub open spec fn key_held(held: HeldKeys, m: CameraMovement) -> bool {
    match m {
        CameraMovement::Forward => held.w,
        CameraMovement::Backward => held.s,
        CameraMovement::Left => held.a,
        CameraMovement::Right => held.d,
        CameraMovement::Up => held.space,
        CameraMovement::Down => held.left_control,
    }
}

/// The position of a movement in the fixed order in which a frame applies
/// them.
pub open spec fn movement_rank(m: CameraMovement) -> int {
    match m {
        CameraMovement::Forward => 0,
        CameraMovement::Backward => 1,
        CameraMovement::Left => 2,
        CameraMovement::Right => 3,
        CameraMovement::Up => 4,
        CameraMovement::Down => 5,
    }
}

/// How many of the six movement keys are held.
pub open spec fn held_movement_keys(held: HeldKeys) -> int {
    (if held.w { 1int } else { 0int }) + (if held.s { 1int } else { 0int }) + (if held.a { 1int } else { 0int })
        + (if held.d { 1int } else { 0int }) + (if held.space { 1int } else { 0int }) + (if held.left_control {
        1int
    } else {
        0int
    })
}

/// A frame makes exactly one movement per held movement key, each in that
/// key's own direction (Shift changes no direction), in a fixed order; a
/// movement is twice as fast while Shift is held, except moving down.
pub proof fn law_movements_follow_held_keys(held: HeldKeys)
    ensures
        movement_steps_of(held).len() == held_movement_keys(held),
        forall|i: int|
            0 <= i < movement_steps_of(held).len() ==> key_held(held, #[trigger] movement_steps_of(held)[i].movement),
        forall|i: int|
            0 <= i < movement_steps_of(held).len() ==> (#[trigger] movement_steps_of(held)[i]).speed_factor == (if held.left_shift
                && movement_steps_of(held)[i].movement != CameraMovement::Down {
                2u32
            } else {
                1u32
            }),
        forall|i: int, j: int|
            0 <= i < j < movement_steps_of(held).len() ==> movement_rank(
                #[trigger] movement_steps_of(held)[i].movement,
            ) < movement_rank(#[trigger] movement_steps_of(held)[j].movement),
{
    let boost: u32 = if held.left_shift { 2 } else { 1 };
    let p0 = Seq::<MovementStep>::empty();
    let p1 = p0 + step_if(held.w, CameraMovement::Forward, boost);
    let p2 = p1 + step_if(held.s, CameraMovement::Backward, boost);
    let p3 = p2 + step_if(held.a, CameraMovement::Left, boost);
    let p4 = p3 + step_if(held.d, CameraMovement::Right, boost);
    let p5 = p4 + step_if(held.space, CameraMovement::Up, boost);
    let p6 = p5 + step_if(held.left_control, CameraMovement::Down, 1);
    lemma_append_step(held, p0, held.w, CameraMovement::Forward, boost);
    lemma_append_step(held, p1, held.s, CameraMovement::Backward, boost);
    lemma_append_step(held, p2, held.a, CameraMovement::Left, boost);
    lemma_append_step(held, p3, held.d, CameraMovement::Right, boost);
    lemma_append_step(held, p4, held.space, CameraMovement::Up, boost);
    lemma_append_step(held, p5, held.left_control, CameraMovement::Down, 1);
    assert(p6 =~= movement_steps_of(held));
}

/// The steps in `steps` each follow a held key at the right speed, in
/// strictly increasing order, all before position `bound` of that order.
pub open spec fn steps_follow_keys(held: HeldKeys, steps: Seq<MovementStep>, bound: int) -> bool {
    &&& forall|i: int| 0 <= i < steps.len() ==> key_held(held, #[trigger] steps[i].movement)
    &&& forall|i: int|
        0 <= i < steps.len() ==> (#[trigger] steps[i]).speed_factor == (if held.left_shift
            && steps[i].movement != CameraMovement::Down {
            2u32
        } else {
            1u32
        })
    &&& forall|i: int| 0 <= i < steps.len() ==> movement_rank(#[trigger] steps[i].movement) < bound
    &&& forall|i: int, j: int|
        0 <= i < j < steps.len() ==> movement_rank(#[trigger] steps[i].movement) < movement_rank(
            #[trigger] steps[j].movement,
        )
}

proof fn lemma_append_step(held: HeldKeys, p: Seq<MovementStep>, on: bool, m: CameraMovement, factor: u32)
    requires
        steps_follow_keys(held, p, movement_rank(m)),
        on == key_held(held, m),
        factor == (if held.left_shift && m != CameraMovement::Down { 2u32 } else { 1u32 }),
        p.len() == held_before(held, movement_rank(m)),
    ensures
        steps_follow_keys(held, p + step_if(on, m, factor), movement_rank(m) + 1),
        (p + step_if(on, m, factor)).len() == held_before(held, movement_rank(m) + 1),
{
    let q = p + step_if(on, m, factor);
    assert forall|i: int, j: int| 0 <= i < j < q.len() implies movement_rank(#[trigger] q[i].movement) < movement_rank(
        #[trigger] q[j].movement,
    ) by {
        if j < p.len() {
            assert(q[i] == p[i] && q[j] == p[j]);
        } else {
            assert(q[i] == p[i]);
        }
    }
    assert forall|i: int| 0 <= i < q.len() implies key_held(held, #[trigger] q[i].movement) by {
        if i < p.len() {
            assert(q[i] == p[i]);
        }
    }
    assert forall|i: int| 0 <= i < q.len() implies (#[trigger] q[i]).speed_factor == (if held.left_shift
        && q[i].movement != CameraMovement::Down {
        2u32
    } else {
        1u32
    }) by {
        if i < p.len() {
            assert(q[i] == p[i]);
        }
    }
    assert forall|i: int| 0 <= i < q.len() implies movement_rank(#[trigger] q[i].movement) < movement_rank(m) + 1 by {
        if i < p.len() {
            assert(q[i] == p[i]);
        }
    }
}

/// How many of the movement keys before position `k` of the order are held.
pub open spec fn held_before(held: HeldKeys, k: int) -> int {
    (if k > 0 && held.w { 1int } else { 0int }) + (if k > 1 && held.s { 1int } else { 0int }) + (if k > 2
        && held.a {
        1int
    } else {
        0int
    }) + (if k > 3 && held.d { 1int } else { 0int }) + (if k > 4 && held.space { 1int } else { 0int }) + (if k > 5
        && held.left_control {
        1int
    } else {
        0int
    })
}

/// A resize records exactly the new size and raises the resized flag,
/// whatever the previous size was, sets the viewport to the new size and
/// asks nothing of the window; the mouse and overlay state stay.
pub proof fn law_resize_records_new_size(s: WindowState, width: i32, height: i32)
    ensures
        ({
            let t = next_state(s, WindowEvent::FramebufferSize { width, height });
            &&& t.width == width
            &&& t.height == height
            &&& t.resized
            &&& t.mouse_locked == s.mouse_locked
            &&& t.first_mouse == s.first_mouse
            &&& t.show_imgui == s.show_imgui
        }),
        request_of(s, WindowEvent::FramebufferSize { width, height }) == WindowRequest::Nothing,
        event_calls(WindowEvent::FramebufferSize { width, height }) == seq![
            GlCall::Viewport { x: 0, y: 0, width, height },
        ],
{
}

/// E always flips whether the mouse is captured and asks the window for
/// exactly the new capture state; F3 always flips the overlay and nothing
/// else; other keys and events change nothing and ask nothing.
pub proof fn law_toggle_keys_flip_their_flag(s: WindowState)
    ensures
        next_state(s, WindowEvent::KeyPress(InputKey::E)).mouse_locked == !s.mouse_locked,
        request_of(s, WindowEvent::KeyPress(InputKey::E)) == WindowRequest::LockCursor(!s.mouse_locked),
        next_state(s, WindowEvent::KeyPress(InputKey::E)).show_imgui == s.show_imgui,
        next_state(s, WindowEvent::KeyPress(InputKey::F3)) == (WindowState { show_imgui: !s.show_imgui, ..s }),
        request_of(s, WindowEvent::KeyPress(InputKey::F3)) == WindowRequest::Nothing,
        next_state(s, WindowEvent::KeyPress(InputKey::Other)) == s,
        request_of(s, WindowEvent::KeyPress(InputKey::Other)) == WindowRequest::Nothing,
        next_state(s, WindowEvent::Other) == s,
        request_of(s, WindowEvent::Other) == WindowRequest::Nothing,
{
}

/// The mouse turns the camera only while captured: a free mouse is
/// skipped, and a captured one tracks except on its first frame.
pub proof fn law_mouse_moves_camera_only_when_captured(s: WindowState)
    ensures
        !s.mouse_locked <==> mouse_step_of(s) == MouseStep::Skip,
        (s.mouse_locked && !s.first_mouse) <==> mouse_step_of(s) == MouseStep::Track,
{
}

} // verus!
