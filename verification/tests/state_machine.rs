use render_core::CameraController;
use render_core::FrameRecovery;
use render_core::Key;
use render_core::LoopAction;
use render_core::RenderState;
use render_core::SurfaceConfig;
use render_core::SurfaceError;
use render_core::TextureSelect;
use render_core::WindowEvent;
use render_core::recovery_for;

fn channel(num: u32, den: u32) -> f64 {
    num as f64 / den as f64
}

#[test]
fn resize_applies_nonzero_request() {
    let mut config = SurfaceConfig::new(640, 480);
    let reconfigure = config.resize(800, 600);
    assert!(reconfigure);
    assert_eq!(config.width, 800);
    assert_eq!(config.height, 600);
}

#[test]
fn resize_zero_width_is_noop() {
    let mut config = SurfaceConfig::new(640, 480);
    let reconfigure = config.resize(0, 600);
    assert!(!reconfigure);
    assert_eq!(config.width, 640);
    assert_eq!(config.height, 480);
}

#[test]
fn resize_zero_height_is_noop() {
    let mut config = SurfaceConfig::new(640, 480);
    let reconfigure = config.resize(800, 0);
    assert!(!reconfigure);
    assert_eq!(config.width, 640);
    assert_eq!(config.height, 480);
}

#[test]
fn controller_maps_every_camera_key() {
    let cases = [
        (Key::J, 0),
        (Key::K, 1),
        (Key::W, 2),
        (Key::Up, 2),
        (Key::S, 3),
        (Key::Down, 3),
        (Key::A, 4),
        (Key::Left, 4),
        (Key::D, 5),
        (Key::Right, 5),
    ];
    for (key, direction) in cases {
        let mut controller = CameraController::new();
        let consumed = controller.process_events(&WindowEvent::Keyboard { key, pressed: true });
        assert!(consumed);
        let held = [
            controller.is_up_pressed,
            controller.is_down_pressed,
            controller.is_forward_pressed,
            controller.is_backward_pressed,
            controller.is_left_pressed,
            controller.is_right_pressed,
        ];
        for (i, h) in held.iter().enumerate() {
            assert_eq!(*h, i == direction);
        }
        let consumed = controller.process_events(&WindowEvent::Keyboard { key, pressed: false });
        assert!(consumed);
        assert!(!controller.is_up_pressed);
        assert!(!controller.is_down_pressed);
        assert!(!controller.is_forward_pressed);
        assert!(!controller.is_backward_pressed);
        assert!(!controller.is_left_pressed);
        assert!(!controller.is_right_pressed);
    }
}

#[test]
fn controller_ignores_other_keys() {
    let mut controller = CameraController::new();
    for key in [Key::Space, Key::Escape, Key::Other] {
        let consumed = controller.process_events(&WindowEvent::Keyboard { key, pressed: true });
        assert!(!consumed);
    }
    assert!(!controller.process_events(&WindowEvent::CloseRequested));
    assert!(!controller.process_events(&WindowEvent::CursorMoved { x: 1, y: 2 }));
    assert_eq!(controller, CameraController::new());
}

#[test]
fn space_toggle_tracks_key_state() {
    let mut state = RenderState::new(640, 480, 10);
    assert!(!state.is_space_pressed);
    let consumed = state.input(&WindowEvent::Keyboard { key: Key::Space, pressed: true });
    assert!(consumed);
    assert!(state.is_space_pressed);
    // A repeated press leaves the toggle at the key's state, whatever it held.
    let consumed = state.input(&WindowEvent::Keyboard { key: Key::Space, pressed: true });
    assert!(consumed);
    assert!(state.is_space_pressed);
    let consumed = state.input(&WindowEvent::Keyboard { key: Key::Space, pressed: false });
    assert!(consumed);
    assert!(!state.is_space_pressed);
}

#[test]
fn cursor_move_sets_normalized_clear_color() {
    let mut state = RenderState::new(800, 400, 10);
    let consumed = state.input(&WindowEvent::CursorMoved { x: 200, y: 300 });
    assert!(consumed);
    let c = state.clear_color;
    assert_eq!(channel(c.r.num, c.r.den), 0.25);
    assert_eq!(channel(c.g.num, c.g.den), 0.75);
    assert_eq!(channel(c.b.num, c.b.den), 1.0);
    assert_eq!(channel(c.a.num, c.a.den), 1.0);
}

#[test]
fn startup_clear_color_values() {
    let state = RenderState::new(640, 480, 10);
    let c = state.clear_color;
    assert_eq!(channel(c.r.num, c.r.den), 0.1);
    assert_eq!(channel(c.g.num, c.g.den), 0.2);
    assert_eq!(channel(c.b.num, c.b.den), 0.3);
    assert_eq!(channel(c.a.num, c.a.den), 1.0);
}

#[test]
fn close_and_escape_end_the_loop() {
    let mut state = RenderState::new(640, 480, 10);
    assert_eq!(state.on_window_event(&WindowEvent::CloseRequested), LoopAction::Exit);
    let press = WindowEvent::Keyboard { key: Key::Escape, pressed: true };
    assert_eq!(state.on_window_event(&press), LoopAction::Exit);
    let release = WindowEvent::Keyboard { key: Key::Escape, pressed: false };
    assert_eq!(state.on_window_event(&release), LoopAction::Continue);
    assert_eq!(state.on_window_event(&WindowEvent::Other), LoopAction::Continue);
}

#[test]
fn resize_events_are_routed() {
    let mut state = RenderState::new(640, 480, 10);
    let action = state.on_window_event(&WindowEvent::Resized { width: 1024, height: 768 });
    assert_eq!(action, LoopAction::Continue);
    assert_eq!(state.config.width, 1024);
    assert_eq!(state.config.height, 768);
    let action = state.on_window_event(&WindowEvent::ScaleFactorChanged { width: 512, height: 384 });
    assert_eq!(action, LoopAction::Continue);
    assert_eq!(state.config.width, 512);
    assert_eq!(state.config.height, 384);
    let action = state.on_window_event(&WindowEvent::Resized { width: 0, height: 768 });
    assert_eq!(action, LoopAction::Continue);
    assert_eq!(state.config.width, 512);
    assert_eq!(state.config.height, 384);
}

#[test]
fn frame_recovery_decisions() {
    assert_eq!(recovery_for(SurfaceError::Lost), FrameRecovery::Reconfigure);
    assert_eq!(recovery_for(SurfaceError::OutOfMemory), FrameRecovery::Terminate);
    assert_eq!(recovery_for(SurfaceError::Timeout), FrameRecovery::SkipFrame);
    assert_eq!(recovery_for(SurfaceError::Outdated), FrameRecovery::SkipFrame);
}

#[test]
fn render_plan_follows_texture_toggle() {
    let mut state = RenderState::new(640, 480, 10);
    assert_eq!(state.render_plan().texture, TextureSelect::Diffuse);
    state.input(&WindowEvent::Keyboard { key: Key::Space, pressed: true });
    assert_eq!(state.render_plan().texture, TextureSelect::Cartoon);
    state.input(&WindowEvent::Keyboard { key: Key::Space, pressed: false });
    assert_eq!(state.render_plan().texture, TextureSelect::Diffuse);
}

#[test]
fn initialize_resize_cursor_redraw_scenario() {
    // initialize -> resize(800,600) -> cursor to (400,300) -> redraw.
    let mut state = RenderState::new(640, 480, 10);
    let action = state.on_window_event(&WindowEvent::Resized { width: 800, height: 600 });
    assert_eq!(action, LoopAction::Continue);
    let action = state.on_window_event(&WindowEvent::CursorMoved { x: 400, y: 300 });
    assert_eq!(action, LoopAction::Continue);
    let plan = state.render_plan();
    let c = plan.clear_color;
    assert_eq!(channel(c.r.num, c.r.den), 0.5);
    assert_eq!(channel(c.g.num, c.g.den), 0.5);
    assert_eq!(channel(c.b.num, c.b.den), 1.0);
    assert_eq!(channel(c.a.num, c.a.den), 1.0);
    assert_eq!(plan.texture, TextureSelect::Diffuse);
    assert_eq!(plan.index_count, 10);
}
