use scene_viewer::controls::{
    draws_frame, key_for_scancode, CameraSpeed, Command, ControlEvent, ControlState, Key,
    WakeCause, FRAME_INTERVAL_NANOS,
};
use scene_viewer::effects::PostProcessingEffects;

fn press(scancode: u32) -> ControlEvent {
    ControlEvent::KeyboardInput { scancode, pressed: true }
}

fn release(scancode: u32) -> ControlEvent {
    ControlEvent::KeyboardInput { scancode, pressed: false }
}

#[test]
fn scancodes_map_to_keys() {
    assert_eq!(key_for_scancode(1), Key::Escape);
    assert_eq!(key_for_scancode(17), Key::Movement(0));
    assert_eq!(key_for_scancode(30), Key::Movement(1));
    assert_eq!(key_for_scancode(31), Key::Movement(2));
    assert_eq!(key_for_scancode(32), Key::Movement(3));
    assert_eq!(key_for_scancode(20), Key::BrightenLight);
    assert_eq!(key_for_scancode(21), Key::DimLight);
    assert_eq!(key_for_scancode(44), Key::PreviousEffect);
    assert_eq!(key_for_scancode(45), Key::NextEffect);
    assert_eq!(key_for_scancode(33), Key::Flashlight);
    assert_eq!(key_for_scancode(42), Key::Run);
    assert_eq!(key_for_scancode(57), Key::Unknown(57));
}

#[test]
fn initial_state() {
    let state = ControlState::new();
    assert_eq!(state.pressed_keys(), [false; 4]);
    assert_eq!(state.selected_effect_index(), 0);
    assert_eq!(state.selected_effect(), PostProcessingEffects::NoPostProcessing);
    assert!(state.flashlight_on());
    assert!(!state.cursor_in_window());
    assert!(!state.cursor_centered());
}

#[test]
fn close_and_escape_exit_without_a_frame() {
    let mut state = ControlState::new();
    let command = state.handle_event(ControlEvent::CloseRequested);
    assert_eq!(command, Command::Exit);
    assert!(!draws_frame(&command));
    assert_eq!(state.handle_event(press(1)), Command::Exit);
    assert_eq!(state.handle_event(release(1)), Command::Exit);
}

#[test]
fn movement_keys_are_recorded() {
    let mut state = ControlState::new();
    assert_eq!(state.handle_event(press(17)), Command::Redraw);
    assert_eq!(state.pressed_keys(), [true, false, false, false]);
    state.handle_event(press(32));
    assert_eq!(state.pressed_keys(), [true, false, false, true]);
    state.handle_event(release(17));
    assert_eq!(state.pressed_keys(), [false, false, false, true]);
    state.handle_event(press(30));
    state.handle_event(press(31));
    assert_eq!(state.pressed_keys(), [false, true, true, true]);
}

#[test]
fn light_keys_act_on_press_and_release() {
    let mut state = ControlState::new();
    assert_eq!(state.handle_event(press(20)), Command::BrightenDirectionalLight);
    assert_eq!(state.handle_event(release(20)), Command::BrightenDirectionalLight);
    assert_eq!(state.handle_event(press(21)), Command::DimDirectionalLight);
    assert_eq!(state.handle_event(release(21)), Command::DimDirectionalLight);
}

#[test]
fn effect_keys_act_on_release() {
    let mut state = ControlState::new();
    assert_eq!(state.handle_event(press(44)), Command::Redraw);
    assert_eq!(state.selected_effect_index(), 0);
    assert_eq!(
        state.handle_event(release(44)),
        Command::UsePostProcessing(PostProcessingEffects::Edged)
    );
    assert_eq!(state.selected_effect_index(), 5);
    assert_eq!(state.handle_event(press(45)), Command::Redraw);
    assert_eq!(
        state.handle_event(release(45)),
        Command::UsePostProcessing(PostProcessingEffects::NoPostProcessing)
    );
    assert_eq!(
        state.handle_event(release(45)),
        Command::UsePostProcessing(PostProcessingEffects::Inversed)
    );
    assert_eq!(state.selected_effect(), PostProcessingEffects::Inversed);
}

#[test]
fn releasing_next_once_per_effect_returns_to_start() {
    let mut state = ControlState::new();
    state.handle_event(release(45));
    state.handle_event(release(45));
    let start = state.selected_effect_index();
    for step in 1..=6 {
        state.handle_event(release(45));
        assert_eq!(state.selected_effect_index() == start, step == 6);
    }
}

#[test]
fn next_then_previous_restores_effect() {
    let mut state = ControlState::new();
    state.handle_event(release(45));
    state.handle_event(release(45));
    state.handle_event(release(45));
    assert_eq!(state.selected_effect(), PostProcessingEffects::DeepFried);
    state.handle_event(release(45));
    assert_eq!(
        state.handle_event(release(44)),
        Command::UsePostProcessing(PostProcessingEffects::DeepFried)
    );
    assert_eq!(state.selected_effect_index(), 3);
}

#[test]
fn flashlight_toggles_on_release() {
    let mut state = ControlState::new();
    assert_eq!(state.handle_event(press(33)), Command::Redraw);
    assert!(state.flashlight_on());
    assert_eq!(state.handle_event(release(33)), Command::SetFlashlight(false));
    assert!(!state.flashlight_on());
    assert_eq!(state.handle_event(release(33)), Command::SetFlashlight(true));
    assert!(state.flashlight_on());
}

#[test]
fn shift_sets_running_speed_while_held() {
    let mut state = ControlState::new();
    assert_eq!(state.handle_event(press(42)), Command::SetCameraSpeed(CameraSpeed::Running));
    assert_eq!(state.handle_event(release(42)), Command::SetCameraSpeed(CameraSpeed::Walking));
}

#[test]
fn unknown_keys_are_reported() {
    let mut state = ControlState::new();
    let command = state.handle_event(press(57));
    assert_eq!(command, Command::ReportUnknownKey(57));
    assert!(draws_frame(&command));
}

#[test]
fn cursor_movement_is_taken_once_settled_inside() {
    let mut state = ControlState::new();
    assert_eq!(
        state.handle_event(ControlEvent::CursorMoved),
        Command::TrackCursor { capture_delta: false }
    );
    assert_eq!(state.handle_event(ControlEvent::CursorEntered), Command::Redraw);
    assert_eq!(
        state.handle_event(ControlEvent::CursorMoved),
        Command::TrackCursor { capture_delta: true }
    );
    assert_eq!(state.handle_event(ControlEvent::CursorLeft), Command::Redraw);
    assert!(!state.cursor_in_window());
    assert!(!state.cursor_centered());
    state.handle_event(ControlEvent::CursorEntered);
    assert_eq!(
        state.handle_event(ControlEvent::CursorMoved),
        Command::TrackCursor { capture_delta: false }
    );
    assert_eq!(
        state.handle_event(ControlEvent::CursorMoved),
        Command::TrackCursor { capture_delta: true }
    );
}

#[test]
fn wheel_resize_and_wakeups() {
    let mut state = ControlState::new();
    assert_eq!(state.handle_event(ControlEvent::MouseWheel { in_lines: true }), Command::Zoom);
    assert_eq!(state.handle_event(ControlEvent::MouseWheel { in_lines: false }), Command::Redraw);
    assert_eq!(state.handle_event(ControlEvent::Resized), Command::Reproject);
    assert_eq!(state.handle_event(ControlEvent::NewEvents(WakeCause::Init)), Command::Redraw);
    assert_eq!(
        state.handle_event(ControlEvent::NewEvents(WakeCause::ResumeTimeReached)),
        Command::Redraw
    );
    let skip = state.handle_event(ControlEvent::NewEvents(WakeCause::Other));
    assert_eq!(skip, Command::Skip);
    assert!(!draws_frame(&skip));
    assert_eq!(state.handle_event(ControlEvent::OtherWindowEvent), Command::Skip);
    assert_eq!(state.handle_event(ControlEvent::Other), Command::Skip);
    assert!(draws_frame(&Command::Zoom));
}

#[test]
fn frame_interval_is_sixty_per_second() {
    assert_eq!(FRAME_INTERVAL_NANOS, 16_666_667);
}
