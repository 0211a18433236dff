use vulkan_engine::controls::{handle_keyboard, AppAction, KeyCode};
use vulkan_engine::main_loop::{next_command, KeyState, LoopCommand, LoopEvent};
use vulkan_engine::window_config::WindowConfig;

#[test]
fn window_config_default_is_fullscreen_1366_by_768_at_60_fps() {
    let config = WindowConfig::default();
    assert_eq!(config.width, 1366);
    assert_eq!(config.height, 768);
    assert!(config.fullscreen);
    assert_eq!(config.target_fps, 60);
}

#[test]
fn escape_key_exits() {
    assert_eq!(handle_keyboard(KeyCode::Escape), AppAction::Exit);
}

#[test]
fn other_keys_continue() {
    for key in [KeyCode::W, KeyCode::A, KeyCode::Space, KeyCode::F1, KeyCode::Return, KeyCode::Key0] {
        assert_eq!(handle_keyboard(key), AppAction::Continue);
    }
}

#[test]
fn close_request_exits_loop() {
    assert_eq!(next_command(&LoopEvent::CloseRequested), LoopCommand::Exit);
}

#[test]
fn escape_press_exits_loop() {
    let event = LoopEvent::KeyboardInput { key: Some(KeyCode::Escape), state: KeyState::Pressed };
    assert_eq!(next_command(&event), LoopCommand::Exit);
}

#[test]
fn escape_release_keeps_polling() {
    let event = LoopEvent::KeyboardInput { key: Some(KeyCode::Escape), state: KeyState::Released };
    assert_eq!(next_command(&event), LoopCommand::Poll);
}

#[test]
fn other_key_press_and_unnamed_key_keep_polling() {
    let event = LoopEvent::KeyboardInput { key: Some(KeyCode::Q), state: KeyState::Pressed };
    assert_eq!(next_command(&event), LoopCommand::Poll);
    let event = LoopEvent::KeyboardInput { key: None, state: KeyState::Pressed };
    assert_eq!(next_command(&event), LoopCommand::Poll);
}

#[test]
fn cleared_events_draw_a_frame() {
    assert_eq!(next_command(&LoopEvent::MainEventsCleared), LoopCommand::DrawFrame);
}

#[test]
fn other_events_keep_polling() {
    assert_eq!(next_command(&LoopEvent::Other), LoopCommand::Poll);
}

#[test]
fn loop_exit_on_key_press_matches_handle_keyboard() {
    for key in [KeyCode::Escape, KeyCode::Z, KeyCode::Cut, KeyCode::LShift, KeyCode::Numpad5] {
        let event = LoopEvent::KeyboardInput { key: Some(key), state: KeyState::Pressed };
        let loop_exits = next_command(&event) == LoopCommand::Exit;
        let handler_exits = handle_keyboard(key) == AppAction::Exit;
        assert_eq!(loop_exits, handler_exits);
    }
}
