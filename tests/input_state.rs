use grainboy::input::{
    Button, ElementState, InputState, PointerButton, UserInput, DISPLAY_SCALE,
};

#[test]
fn transition_table_from_released() {
    assert_eq!(InputState::Released.next(ElementState::Pressed), InputState::JustPressed);
    assert_eq!(InputState::Released.next(ElementState::Released), InputState::Released);
}

#[test]
fn transition_table_from_just_pressed() {
    assert_eq!(InputState::JustPressed.next(ElementState::Pressed), InputState::Pressed);
    assert_eq!(InputState::JustPressed.next(ElementState::Released), InputState::JustReleased);
}

#[test]
fn transition_table_from_pressed() {
    assert_eq!(InputState::Pressed.next(ElementState::Pressed), InputState::Pressed);
    assert_eq!(InputState::Pressed.next(ElementState::Released), InputState::JustReleased);
}

#[test]
fn transition_table_from_just_released() {
    assert_eq!(InputState::JustReleased.next(ElementState::Pressed), InputState::JustPressed);
    assert_eq!(InputState::JustReleased.next(ElementState::Released), InputState::Released);
}

#[test]
fn state_queries() {
    assert!(InputState::JustPressed.pressed());
    assert!(InputState::Pressed.pressed());
    assert!(!InputState::Released.pressed());
    assert!(InputState::JustPressed.just_pressed());
    assert!(!InputState::Pressed.just_pressed());
    assert!(InputState::JustReleased.released());
    assert!(InputState::Released.released());
    assert!(!InputState::Pressed.released());
    assert!(InputState::JustReleased.just_released());
    assert!(!InputState::Released.just_released());
}

#[test]
fn housekeeping_settles_each_state_once() {
    let cases = [
        (InputState::JustPressed, InputState::Pressed),
        (InputState::JustReleased, InputState::Released),
        (InputState::Pressed, InputState::Pressed),
        (InputState::Released, InputState::Released),
    ];
    for (before, after) in cases {
        let mut s = before;
        s.main_events_cleared();
        assert_eq!(s, after);
        s.main_events_cleared();
        assert_eq!(s, after);
    }
}

#[test]
fn new_input_is_idle() {
    let u = UserInput::new();
    assert_eq!(u.buttons.up, InputState::Released);
    assert_eq!(u.buttons.select, InputState::Released);
    assert_eq!(u.mouse.left, InputState::Released);
    assert_eq!(u.mouse.right, InputState::Released);
    assert_eq!(u.wheel, [0, 0]);
    assert_eq!(u.cursor, [0, 0]);
}

#[test]
fn keyboard_event_changes_one_button() {
    let mut u = UserInput::new();
    u.apply_button(Button::A, ElementState::Pressed);
    assert_eq!(u.buttons.a, InputState::JustPressed);
    assert_eq!(u.buttons.b, InputState::Released);
    assert_eq!(u.buttons.get(Button::A), InputState::JustPressed);
    u.apply_button(Button::A, ElementState::Pressed);
    assert_eq!(u.buttons.a, InputState::Pressed);
    u.apply_button(Button::Select, ElementState::Pressed);
    assert_eq!(u.buttons.select, InputState::JustPressed);
}

#[test]
fn end_of_tick_housekeeping_on_whole_input() {
    let mut u = UserInput::new();
    u.apply_button(Button::Up, ElementState::Pressed);
    u.apply_button(Button::Down, ElementState::Pressed);
    u.main_events_cleared();
    u.apply_button(Button::Down, ElementState::Released);
    u.apply_mouse(PointerButton::Left, ElementState::Pressed);
    u.apply_mouse(PointerButton::Right, ElementState::Pressed);
    u.main_events_cleared();
    u.apply_mouse(PointerButton::Right, ElementState::Released);
    u.set_wheel_lines(1, 2);
    u.set_cursor(40, 80);
    u.main_events_cleared();
    assert_eq!(u.buttons.up, InputState::Pressed);
    assert_eq!(u.buttons.down, InputState::Released);
    assert_eq!(u.mouse.left, InputState::Pressed);
    assert_eq!(u.mouse.right, InputState::Released);
    assert_eq!(u.wheel, [0, 0]);
    assert_eq!(u.cursor, [10, 20]);
}

#[test]
fn mouse_click_leaves_just_states_after_one_tick() {
    let mut u = UserInput::new();
    u.apply_mouse(PointerButton::Left, ElementState::Pressed);
    assert_eq!(u.mouse.left, InputState::JustPressed);
    u.main_events_cleared();
    assert_eq!(u.mouse.left, InputState::Pressed);
    u.apply_mouse(PointerButton::Left, ElementState::Released);
    assert_eq!(u.mouse.left, InputState::JustReleased);
    u.main_events_cleared();
    assert_eq!(u.mouse.left, InputState::Released);
}

#[test]
fn cursor_is_divided_by_display_scale() {
    let mut u = UserInput::new();
    assert_eq!(DISPLAY_SCALE, 4);
    u.set_cursor(1023, 7);
    assert_eq!(u.cursor, [255, 1]);
    u.set_cursor(-7, -8);
    assert_eq!(u.cursor, [-1, -2]);
}

#[test]
fn wheel_deltas() {
    let mut u = UserInput::new();
    u.set_wheel_pixels(16, -9);
    assert_eq!(u.wheel, [4, -2]);
    u.set_wheel_lines(1, 1);
    assert_eq!(u.wheel, [8, -8]);
    u.set_wheel_lines(-3, -2);
    assert_eq!(u.wheel, [-24, 16]);
}

#[test]
fn wheel_lines_saturate() {
    let mut u = UserInput::new();
    u.set_wheel_lines(i32::MAX, i32::MIN);
    assert_eq!(u.wheel, [i32::MAX, i32::MAX]);
    u.set_wheel_lines(i32::MIN, i32::MAX);
    assert_eq!(u.wheel, [i32::MIN, i32::MIN]);
}
