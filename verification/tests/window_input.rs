use pbr_renderer::camera::CameraMovement;
use pbr_renderer::command::GlCommand;
use pbr_renderer::gl_enums::{COLOR_BUFFER_BIT, DEPTH_BUFFER_BIT};
use pbr_renderer::shader::Shader;
use pbr_renderer::window::{
    clear_frame, movement_steps, set_initial_state, HeldKeys, InputKey, MouseStep, MovementStep, WindowEvent, WindowRequest,
    WindowState, FRAME_GREY_F32_BITS,
};

fn no_keys() -> HeldKeys {
    HeldKeys { w: false, s: false, a: false, d: false, space: false, left_shift: false, left_control: false }
}

#[test]
fn new_window_captures_mouse_and_shows_overlay() {
    let s = WindowState::new(1280, 720);
    assert_eq!(s.framebuffer_size(), (1280, 720));
    assert!(!s.was_resized());
    assert!(s.mouse_locked);
    assert!(s.first_mouse);
    assert!(s.show_imgui);
}

#[test]
fn resize_records_size_and_sets_viewport() {
    let mut s = WindowState::new(1280, 720);
    let mut cmds = Vec::new();
    let request = s.handle_event(&mut cmds, WindowEvent::FramebufferSize { width: 800, height: 600 });
    assert_eq!(request, WindowRequest::Nothing);
    assert_eq!(s.framebuffer_size(), (800, 600));
    assert!(s.was_resized());
    assert_eq!(cmds, vec![GlCommand::Viewport { x: 0, y: 0, width: 800, height: 600 }]);
    s.clear_resized_flag();
    assert!(!s.was_resized());
    assert_eq!(s.framebuffer_size(), (800, 600));
}

#[test]
fn escape_asks_to_close_and_changes_nothing() {
    let mut s = WindowState::new(640, 480);
    let before = s;
    let mut cmds = Vec::new();
    assert_eq!(s.handle_event(&mut cmds, WindowEvent::KeyPress(InputKey::Escape)), WindowRequest::Close);
    assert_eq!(s, before);
    assert!(cmds.is_empty());
}

#[test]
fn other_events_change_nothing() {
    let mut s = WindowState::new(640, 480);
    let before = s;
    let mut cmds = Vec::new();
    assert_eq!(s.handle_event(&mut cmds, WindowEvent::KeyPress(InputKey::Other)), WindowRequest::Nothing);
    assert_eq!(s.handle_event(&mut cmds, WindowEvent::Other), WindowRequest::Nothing);
    assert_eq!(s, before);
    assert!(cmds.is_empty());
}

#[test]
fn f3_twice_restores_overlay() {
    let mut s = WindowState::new(640, 480);
    let before = s;
    let mut cmds = Vec::new();
    assert_eq!(s.handle_event(&mut cmds, WindowEvent::KeyPress(InputKey::F3)), WindowRequest::Nothing);
    assert!(!s.show_imgui);
    s.handle_event(&mut cmds, WindowEvent::KeyPress(InputKey::F3));
    assert_eq!(s, before);
}

#[test]
fn freeing_and_recapturing_mouse_recentres() {
    let mut s = WindowState::new(640, 480);
    let mut cmds = Vec::new();
    // the first captured frame recentres, the next ones track
    assert_eq!(s.mouse_step(), MouseStep::Recenter);
    assert_eq!(s.mouse_step(), MouseStep::Track);
    assert!(!s.first_mouse);

    assert_eq!(s.handle_event(&mut cmds, WindowEvent::KeyPress(InputKey::E)), WindowRequest::LockCursor(false));
    assert!(!s.mouse_locked);
    assert!(s.first_mouse);
    assert_eq!(s.mouse_step(), MouseStep::Skip);
    assert!(s.first_mouse);

    assert_eq!(s.handle_event(&mut cmds, WindowEvent::KeyPress(InputKey::E)), WindowRequest::LockCursor(true));
    assert!(s.mouse_locked);
    assert_eq!(s.mouse_step(), MouseStep::Recenter);
    assert_eq!(s.mouse_step(), MouseStep::Track);
    assert!(cmds.is_empty());
}

#[test]
fn no_keys_no_movement() {
    assert!(movement_steps(no_keys()).is_empty());
}

#[test]
fn shift_doubles_speed_except_down() {
    let held = HeldKeys { w: true, left_shift: true, left_control: true, ..no_keys() };
    assert_eq!(
        movement_steps(held),
        vec![
            MovementStep { movement: CameraMovement::Forward, speed_factor: 2 },
            MovementStep { movement: CameraMovement::Down, speed_factor: 1 },
        ]
    );
}

#[test]
fn all_keys_move_in_fixed_order() {
    let held =
        HeldKeys { w: true, s: true, a: true, d: true, space: true, left_shift: false, left_control: true };
    let order: Vec<CameraMovement> = movement_steps(held).iter().map(|m| m.movement).collect();
    assert_eq!(
        order,
        vec![
            CameraMovement::Forward,
            CameraMovement::Backward,
            CameraMovement::Left,
            CameraMovement::Right,
            CameraMovement::Up,
            CameraMovement::Down,
        ]
    );
    assert!(movement_steps(held).iter().all(|m| m.speed_factor == 1));
}

#[test]
fn frame_clear_is_grey_point_one() {
    assert_eq!(FRAME_GREY_F32_BITS, 0.1f32.to_bits());
    let mut cmds = vec![GlCommand::UseProgram { program: 3 }];
    clear_frame(&mut cmds);
    assert_eq!(
        cmds,
        vec![
            GlCommand::UseProgram { program: 3 },
            GlCommand::ClearColor {
                red: 0.1f32.to_bits(),
                green: 0.1f32.to_bits(),
                blue: 0.1f32.to_bits(),
                alpha: 1.0f32.to_bits(),
            },
            GlCommand::Clear { mask: COLOR_BUFFER_BIT | DEPTH_BUFFER_BIT },
        ]
    );
}

#[test]
fn initial_gl_state_of_a_window() {
    let mut cmds = Vec::new();
    set_initial_state(&mut cmds, 1920, 1080);
    assert_eq!(
        cmds,
        vec![
            GlCommand::Viewport { x: 0, y: 0, width: 1920, height: 1080 },
            GlCommand::Enable { capability: gl::DEPTH_TEST },
            GlCommand::Enable { capability: gl::CULL_FACE },
            GlCommand::CullFace { mode: gl::BACK },
            GlCommand::Enable { capability: gl::TEXTURE_CUBE_MAP_SEAMLESS },
        ]
    );
}

#[test]
fn shader_deletion() {
    let mut cmds = Vec::new();
    Shader { id: 12 }.delete(&mut cmds);
    assert_eq!(cmds, vec![GlCommand::DeleteProgram { program: 12 }]);
}
