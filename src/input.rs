use vstd::prelude::*;

verus! {

/// The edge-detecting state of one button, as seen by a cartridge.
#[derive(Clone, Copy, Debug, PartialEq, Eq, Structural)]
pub enum InputState {
    Released,
    JustPressed,
    Pressed,
    JustReleased,
}

/// A raw press or release event, as delivered by the platform layer.
#[derive(Clone, Copy, Debug, PartialEq, Eq, Structural)]
pub enum ElementState {
    Pressed,
    Released,
}

/// The transition table of the edge detector.
pub open spec fn next_state(s: InputState, e: ElementState) -> InputState {
    match (s, e) {
        (InputState::Released, ElementState::Pressed) => InputState::JustPressed,
        (InputState::Released, ElementState::Released) => InputState::Released,
        (InputState::JustPressed, ElementState::Pressed) => InputState::Pressed,
        (InputState::JustPressed, ElementState::Released) => InputState::JustReleased,
        (InputState::Pressed, ElementState::Pressed) => InputState::Pressed,
        (InputState::Pressed, ElementState::Released) => InputState::JustReleased,
        (InputState::JustReleased, ElementState::Pressed) => InputState::JustPressed,
        (InputState::JustReleased, ElementState::Released) => InputState::Released,
    }
}

/// End-of-tick housekeeping of one button: the `Just*` edges settle.
pub open spec fn settle(s: InputState) -> InputState {
    match s {
        InputState::JustPressed => InputState::Pressed,
        InputState::JustReleased => InputState::Released,
        _ => s,
    }
}

/// Housekeeping takes one step: after it every button is `Pressed` or
/// `Released`, and a second pass changes nothing.
pub proof fn lemma_settle_once(s: InputState)
    ensures
        settle(s) == InputState::Pressed || settle(s) == InputState::Released,
        settle(settle(s)) == settle(s),
        (s == InputState::Pressed || s == InputState::Released) ==> settle(s) == s,
{
}

impl InputState {
    pub fn just_released(&self) -> (r: bool)
        ensures
            r == (*self == InputState::JustReleased),
    {
        *self == InputState::JustReleased
    }

    pub fn released(&self) -> (r: bool)
        ensures
            r == (*self == InputState::JustReleased || *self == InputState::Released),
    {
        *self == InputState::JustReleased || *self == InputState::Released
    }

    pub fn just_pressed(&self) -> (r: bool)
        ensures
            r == (*self == InputState::JustPressed),
    {
        *self == InputState::JustPressed
    }

    pub fn pressed(&self) -> (r: bool)
        ensures
            r == (*self == InputState::JustPressed || *self == InputState::Pressed),
    {
        *self == InputState::JustPressed || *self == InputState::Pressed
    }

    /// Feeds one raw event through the transition table.
    pub fn next(self, state: ElementState) -> (r: InputState)
        ensures
            r == next_state(self, state),
    {
        match (self, state) {
            (InputState::Released, ElementState::Released) => InputState::Released,
            (InputState::Released, ElementState::Pressed) => InputState::JustPressed,
            (InputState::JustReleased, ElementState::Released) => InputState::Released,
            (InputState::JustReleased, ElementState::Pressed) => InputState::JustPressed,
            (InputState::JustPressed, ElementState::Released) => InputState::JustReleased,
            (InputState::JustPressed, ElementState::Pressed) => InputState::Pressed,
            (InputState::Pressed, ElementState::Released) => InputState::JustReleased,
            (InputState::Pressed, ElementState::Pressed) => InputState::Pressed,
        }
    }

    /// End-of-tick housekeeping: `JustPressed` becomes `Pressed`,
    /// `JustReleased` becomes `Released`, the others stay.
    pub fn main_events_cleared(&mut self)
        ensures
            *final(self) == settle(*old(self)),
    {
        *self = match *self {
            InputState::JustPressed => InputState::Pressed,
            InputState::JustReleased => InputState::Released,
            a => a,
        };
    }
}


/// The ten pad buttons, in snapshot order.
#[derive(Clone, Copy, Debug, PartialEq, Eq, Structural)]
pub enum Button {
    Up,
    Down,
    Left,
    Right,
    A,
    B,
    X,
    Y,
    Start,
    Select,
}

/// The two mouse buttons a cartridge sees.
#[derive(Clone, Copy, Debug, PartialEq, Eq, Structural)]
pub enum PointerButton {
    Left,
    Right,
}

/// One value per mouse button.
#[derive(Clone, Copy, Debug)]
pub struct MouseButtons<T: Copy> {
    pub left: T,
    pub right: T,
}

/// One value per pad button.
#[derive(Clone, Copy, Debug)]
pub struct Buttons<T: Copy> {
    pub up: T,
    pub down: T,
    pub left: T,
    pub right: T,
    pub a: T,
    pub b: T,
    pub x: T,
    pub y: T,
    pub start: T,
    pub select: T,
}

impl<T: Copy> Buttons<T> {
    /// The ten values in snapshot order: up, down, left, right, A, B, X, Y,
    /// start, select.
    pub open spec fn states(self) -> Seq<T> {
        seq![
            self.up,
            self.down,
            self.left,
            self.right,
            self.a,
            self.b,
            self.x,
            self.y,
            self.start,
            self.select,
        ]
    }

    /// The value of one button.
    pub open spec fn spec_get(self, button: Button) -> T {
        match button {
            Button::Up => self.up,
            Button::Down => self.down,
            Button::Left => self.left,
            Button::Right => self.right,
            Button::A => self.a,
            Button::B => self.b,
            Button::X => self.x,
            Button::Y => self.y,
            Button::Start => self.start,
            Button::Select => self.select,
        }
    }

    pub fn get(&self, button: Button) -> (r: T)
        ensures
            r == self.spec_get(button),
    {
        match button {
            Button::Up => self.up,
            Button::Down => self.down,
            Button::Left => self.left,
            Button::Right => self.right,
            Button::A => self.a,
            Button::B => self.b,
            Button::X => self.x,
            Button::Y => self.y,
            Button::Start => self.start,
            Button::Select => self.select,
        }
    }

    /// Replaces the value of one button, keeping the other nine.
    pub fn set(&mut self, button: Button, value: T)
        ensures
            final(self).spec_get(button) == value,
            forall|o: Button| o != button ==> final(self).spec_get(o) == old(self).spec_get(o),
    {
        match button {
            Button::Up => self.up = value,
            Button::Down => self.down = value,
            Button::Left => self.left = value,
            Button::Right => self.right = value,
            Button::A => self.a = value,
            Button::B => self.b = value,
            Button::X => self.x = value,
            Button::Y => self.y = value,
            Button::Start => self.start = value,
            Button::Select => self.select = value,
        }
    }
}

impl PointerButton {
    /// The other mouse button.
    pub open spec fn other(self) -> PointerButton {
        match self {
            PointerButton::Left => PointerButton::Right,
            PointerButton::Right => PointerButton::Left,
        }
    }
}

impl<T: Copy> MouseButtons<T> {
    /// The value of one mouse button.
    pub open spec fn spec_get(self, button: PointerButton) -> T {
        match button {
            PointerButton::Left => self.left,
            PointerButton::Right => self.right,
        }
    }
}

/// Integer factor between platform logical pixels and canvas pixels.
pub const DISPLAY_SCALE: i32 = 4;

/// Canvas pixels scrolled per wheel line.
pub const PIXELS_PER_LINE: i32 = 8;

/// Platform logical pixels to canvas pixels; the division truncates toward
/// zero, as Rust's integer division does.
pub open spec fn to_canvas(v: i32) -> i32 {
    if v >= 0 {
        (v as int / DISPLAY_SCALE as int) as i32
    } else {
        (-((-(v as int)) / DISPLAY_SCALE as int)) as i32
    }
}

/// The `i32` nearest to `v`.
pub open spec fn saturate(v: int) -> i32 {
    if v < i32::MIN {
        i32::MIN
    } else if v > i32::MAX {
        i32::MAX
    } else {
        v as i32
    }
}

fn saturate_i64(v: i64) -> (r: i32)
    ensures
        r == saturate(v as int),
{
    if v < i32::MIN as i64 {
        i32::MIN
    } else if v > i32::MAX as i64 {
        i32::MAX
    } else {
        v as i32
    }
}

/// The whole input a cartridge sees in one tick.
#[derive(Clone, Copy, Debug)]
pub struct UserInput {
    pub buttons: Buttons<InputState>,
    pub mouse: MouseButtons<InputState>,
    pub wheel: [i32; 2],
    pub cursor: [i32; 2],
}

impl UserInput {
    /// Every button released, no wheel motion, cursor at the origin.
    pub fn new() -> (r: UserInput)
        ensures
            forall|i: int| 0 <= i < 10 ==> r.buttons.states()[i] == InputState::Released,
            r.mouse.left == InputState::Released,
            r.mouse.right == InputState::Released,
            r.wheel@ == seq![0i32, 0i32],
            r.cursor@ == seq![0i32, 0i32],
    {
        UserInput {
            buttons: Buttons {
                up: InputState::Released,
                down: InputState::Released,
                left: InputState::Released,
                right: InputState::Released,
                a: InputState::Released,
                b: InputState::Released,
                x: InputState::Released,
                y: InputState::Released,
                start: InputState::Released,
                select: InputState::Released,
            },
            mouse: MouseButtons { left: InputState::Released, right: InputState::Released },
            wheel: [0, 0],
            cursor: [0, 0],
        }
    }

    /// A raw keyboard event for one pad button, applied as it arrives.
    pub fn apply_button(&mut self, button: Button, event: ElementState)
        ensures
            final(self).buttons.spec_get(button) == next_state(
                old(self).buttons.spec_get(button),
                event,
            ),
            forall|o: Button|
                o != button ==> final(self).buttons.spec_get(o) == old(self).buttons.spec_get(o),
            final(self).mouse == old(self).mouse,
            final(self).wheel == old(self).wheel,
            final(self).cursor == old(self).cursor,
    {
        let s = self.buttons.get(button);
        self.buttons.set(button, s.next(event));
    }

    /// A raw event for one mouse button, applied as it arrives.
    pub fn apply_mouse(&mut self, button: PointerButton, event: ElementState)
        ensures
            final(self).mouse.spec_get(button) == next_state(
                old(self).mouse.spec_get(button),
                event,
            ),
            final(self).mouse.spec_get(button.other()) == old(self).mouse.spec_get(button.other()),
            final(self).buttons == old(self).buttons,
            final(self).wheel == old(self).wheel,
            final(self).cursor == old(self).cursor,
    {
        match button {
            PointerButton::Left => self.mouse.left = self.mouse.left.next(event),
            PointerButton::Right => self.mouse.right = self.mouse.right.next(event),
        }
    }

    /// A cursor position in platform logical pixels, stored in canvas pixels.
    pub fn set_cursor(&mut self, x: i32, y: i32)
        ensures
            final(self).cursor@ == seq![to_canvas(x), to_canvas(y)],
            final(self).buttons == old(self).buttons,
            final(self).mouse == old(self).mouse,
            final(self).wheel == old(self).wheel,
    {
        self.cursor = [x / DISPLAY_SCALE, y / DISPLAY_SCALE];
    }

    /// A wheel motion given in platform logical pixels, stored in canvas
    /// pixels.
    pub fn set_wheel_pixels(&mut self, x: i32, y: i32)
        ensures
            final(self).wheel@ == seq![to_canvas(x), to_canvas(y)],
            final(self).buttons == old(self).buttons,
            final(self).mouse == old(self).mouse,
            final(self).cursor == old(self).cursor,
    {
        self.wheel = [x / DISPLAY_SCALE, y / DISPLAY_SCALE];
    }

    /// A wheel motion given in lines; a line up is a negative vertical
    /// delta. Deltas beyond the range of `i32` saturate.
    pub fn set_wheel_lines(&mut self, x: i32, y: i32)
        ensures
            final(self).wheel@ == seq![
                saturate(x * PIXELS_PER_LINE),
                saturate(-y * PIXELS_PER_LINE),
            ],
            final(self).buttons == old(self).buttons,
            final(self).mouse == old(self).mouse,
            final(self).cursor == old(self).cursor,
    {
        let k = PIXELS_PER_LINE as i64;
        assert(-2147483648 * 8 <= x * 8 <= 2147483647 * 8) by (nonlinear_arith)
            requires
                i32::MIN <= x <= i32::MAX,
        ;
        assert(-2147483648 * 8 <= -y * 8 <= 2147483648 * 8) by (nonlinear_arith)
            requires
                i32::MIN <= y <= i32::MAX,
        ;
        let dx = x as i64 * k;
        let dy = -(y as i64) * k;
        self.wheel = [saturate_i64(dx), saturate_i64(dy)];
    }

    /// End-of-tick housekeeping: every button's `Just*` edge settles, a
    /// mouse button left in a `Just*` state is advanced by the event that
    /// put it there, and the wheel delta is reset.
    pub fn main_events_cleared(&mut self)
        ensures
            final(self).buttons.states() == old(self).buttons.states().map_values(
                |s: InputState| settle(s),
            ),
            final(self).mouse.left == settle(old(self).mouse.left),
            final(self).mouse.right == settle(old(self).mouse.right),
            final(self).wheel@ == seq![0i32, 0i32],
            final(self).cursor == old(self).cursor,
    {
        self.buttons.up.main_events_cleared();
        self.buttons.down.main_events_cleared();
        self.buttons.left.main_events_cleared();
        self.buttons.right.main_events_cleared();
        self.buttons.a.main_events_cleared();
        self.buttons.b.main_events_cleared();
        self.buttons.x.main_events_cleared();
        self.buttons.y.main_events_cleared();
        self.buttons.start.main_events_cleared();
        self.buttons.select.main_events_cleared();
        // Mouse buttons get no event every tick, so their edges are
        // advanced here by replaying the event that produced them.
        if let InputState::JustPressed = self.mouse.left {
            self.mouse.left = self.mouse.left.next(ElementState::Pressed);
        }
        if let InputState::JustReleased = self.mouse.left {
            self.mouse.left = self.mouse.left.next(ElementState::Released);
        }
        if let InputState::JustPressed = self.mouse.right {
            self.mouse.right = self.mouse.right.next(ElementState::Pressed);
        }
        if let InputState::JustReleased = self.mouse.right {
            self.mouse.right = self.mouse.right.next(ElementState::Released);
        }
        self.wheel = [0, 0];
        proof {
            assert(self.buttons.states() =~= old(self).buttons.states().map_values(
                |s: InputState| settle(s),
            ));
        }
    }
}

} // verus!
