//! Conversion of client input events into kernel input events.
use vstd::prelude::*;

verus! {

/// Kernel event type of key and button events.
pub const EV_KEY: u16 = 1;

/// Kernel event type of relative-axis events.
pub const EV_REL: u16 = 2;

/// Relative axes.
pub const REL_X: u16 = 0;
pub const REL_Y: u16 = 1;
pub const REL_HWHEEL_HI_RES: u16 = 12;

/// Mouse buttons.
pub const BTN_LEFT: u16 = 272;
pub const BTN_RIGHT: u16 = 273;
pub const BTN_MIDDLE: u16 = 274;

/// Keyboard keys, by their kernel codes.
pub const KEY_ESC: u16 = 1;
pub const KEY_1: u16 = 2;
pub const KEY_2: u16 = 3;
pub const KEY_3: u16 = 4;
pub const KEY_4: u16 = 5;
pub const KEY_5: u16 = 6;
pub const KEY_6: u16 = 7;
pub const KEY_7: u16 = 8;
pub const KEY_8: u16 = 9;
pub const KEY_9: u16 = 10;
pub const KEY_0: u16 = 11;
pub const KEY_MINUS: u16 = 12;
pub const KEY_EQUAL: u16 = 13;
pub const KEY_BACKSPACE: u16 = 14;
pub const KEY_TAB: u16 = 15;
pub const KEY_Q: u16 = 16;
pub const KEY_W: u16 = 17;
pub const KEY_E: u16 = 18;
pub const KEY_R: u16 = 19;
pub const KEY_T: u16 = 20;
pub const KEY_Y: u16 = 21;
pub const KEY_U: u16 = 22;
pub const KEY_I: u16 = 23;
pub const KEY_O: u16 = 24;
pub const KEY_P: u16 = 25;
pub const KEY_LEFTBRACE: u16 = 26;
pub const KEY_RIGHTBRACE: u16 = 27;
pub const KEY_ENTER: u16 = 28;
pub const KEY_LEFTCTRL: u16 = 29;
pub const KEY_A: u16 = 30;
pub const KEY_S: u16 = 31;
pub const KEY_D: u16 = 32;
pub const KEY_F: u16 = 33;
pub const KEY_G: u16 = 34;
pub const KEY_H: u16 = 35;
pub const KEY_J: u16 = 36;
pub const KEY_K: u16 = 37;
pub const KEY_L: u16 = 38;
pub const KEY_GRAVE: u16 = 41;
pub const KEY_LEFTSHIFT: u16 = 42;
pub const KEY_BACKSLASH: u16 = 43;
pub const KEY_Z: u16 = 44;
pub const KEY_X: u16 = 45;
pub const KEY_C: u16 = 46;
pub const KEY_V: u16 = 47;
pub const KEY_B: u16 = 48;
pub const KEY_N: u16 = 49;
pub const KEY_M: u16 = 50;
pub const KEY_RIGHTSHIFT: u16 = 54;
pub const KEY_LEFTALT: u16 = 56;
pub const KEY_SPACE: u16 = 57;
pub const KEY_CAPSLOCK: u16 = 58;
pub const KEY_RIGHTCTRL: u16 = 97;
pub const KEY_RIGHTALT: u16 = 100;

/// Why an input event could not be handled.
#[derive(Debug, Clone, PartialEq, Eq)]
pub enum InputManagerError {
    /// The client named a key that has no mapping.
    UnknownKey(String),
    /// A lock guarding a device was poisoned.
    PoisonedMutex,
}

/// Whether a key goes up, down, or repeats while held down.
#[derive(Debug, Clone, Copy, PartialEq, Eq, Structural)]
pub enum KeyDirection {
    Up,
    Down,
    RepeatingDown,
}

impl KeyDirection {
    pub open spec fn spec_value(self) -> i32 {
        match self {
            KeyDirection::Up => 0,
            KeyDirection::Down => 1,
            KeyDirection::RepeatingDown => 2,
        }
    }

    /// The value of a kernel key event for this direction.
    pub fn value(&self) -> (r: i32)
        ensures
            r == self.spec_value(),
    {
        match self {
            KeyDirection::Up => 0,
            KeyDirection::Down => 1,
            KeyDirection::RepeatingDown => 2,
        }
    }
}

/// A kernel input event: type, code and value.
#[derive(Debug, Clone, Copy, PartialEq, Eq, Structural)]
pub struct RawInputEvent {
    pub event_type: u16,
    pub code: u16,
    pub value: i32,
}

/// A key of the virtual keyboard going up or down; `key` is a kernel key code.
#[derive(Debug, Clone, Copy, PartialEq, Eq, Structural)]
pub struct KeyEvent {
    pub key: u16,
    pub direction: KeyDirection,
}

/// The kernel code of the key that a client names, if it has one.
pub open spec fn key_code_of(name: Seq<char>) -> Option<u16> {
    if name == "KeyA"@ {
        Some(KEY_A)
    } else if name == "KeyB"@ {
        Some(KEY_B)
    } else if name == "KeyC"@ {
        Some(KEY_C)
    } else if name == "KeyD"@ {
        Some(KEY_D)
    } else if name == "KeyE"@ {
        Some(KEY_E)
    } else if name == "KeyF"@ {
        Some(KEY_F)
    } else if name == "KeyG"@ {
        Some(KEY_G)
    } else if name == "KeyH"@ {
        Some(KEY_H)
    } else if name == "KeyI"@ {
        Some(KEY_I)
    } else if name == "KeyJ"@ {
        Some(KEY_J)
    } else if name == "KeyK"@ {
        Some(KEY_K)
    } else if name == "KeyL"@ {
        Some(KEY_L)
    } else if name == "KeyM"@ {
        Some(KEY_M)
    } else if name == "KeyN"@ {
        Some(KEY_N)
    } else if name == "KeyO"@ {
        Some(KEY_O)
    } else if name == "KeyP"@ {
        Some(KEY_P)
    } else if name == "KeyQ"@ {
        Some(KEY_Q)
    } else if name == "KeyR"@ {
        Some(KEY_R)
    } else if name == "KeyS"@ {
        Some(KEY_S)
    } else if name == "KeyT"@ {
        Some(KEY_T)
    } else if name == "KeyU"@ {
        Some(KEY_U)
    } else if name == "KeyV"@ {
        Some(KEY_V)
    } else if name == "KeyW"@ {
        Some(KEY_W)
    } else if name == "KeyX"@ {
        Some(KEY_X)
    } else if name == "KeyY"@ {
        Some(KEY_Y)
    } else if name == "KeyZ"@ {
        Some(KEY_Z)
    } else if name == "CapsLock"@ {
        Some(KEY_CAPSLOCK)
    } else if name == "Escape"@ {
        Some(KEY_ESC)
    } else if name == "Backquote"@ {
        Some(KEY_GRAVE)
    } else if name == "KEY0"@ {
        Some(KEY_0)
    } else if name == "KEY1"@ {
        Some(KEY_1)
    } else if name == "KEY2"@ {
        Some(KEY_2)
    } else if name == "KEY3"@ {
        Some(KEY_3)
    } else if name == "KEY4"@ {
        Some(KEY_4)
    } else if name == "KEY5"@ {
        Some(KEY_5)
    } else if name == "KEY6"@ {
        Some(KEY_6)
    } else if name == "KEY7"@ {
        Some(KEY_7)
    } else if name == "KEY8"@ {
        Some(KEY_8)
    } else if name == "KEY9"@ {
        Some(KEY_9)
    } else if name == "Minus"@ {
        Some(KEY_MINUS)
    } else if name == "Equal"@ {
        Some(KEY_EQUAL)
    } else if name == "Backspace"@ {
        Some(KEY_BACKSPACE)
    } else if name == "BracketLeft"@ {
        Some(KEY_LEFTBRACE)
    } else if name == "BracketRight"@ {
        Some(KEY_RIGHTBRACE)
    } else if name == "Backslash"@ {
        Some(KEY_BACKSLASH)
    } else if name == "Tab"@ {
        Some(KEY_TAB)
    } else if name == "ShiftLeft"@ {
        Some(KEY_LEFTSHIFT)
    } else if name == "ControlLeft"@ {
        Some(KEY_LEFTCTRL)
    } else if name == "AltLeft"@ {
        Some(KEY_LEFTALT)
    } else if name == "Space"@ {
        Some(KEY_SPACE)
    } else if name == "AltRight"@ {
        Some(KEY_RIGHTALT)
    } else if name == "ControlRight"@ {
        Some(KEY_RIGHTCTRL)
    } else if name == "ShiftRight"@ {
        Some(KEY_RIGHTSHIFT)
    } else if name == "Enter"@ {
        Some(KEY_ENTER)
    } else {
        None
    }
}

/// The keys the virtual keyboard offers: every key a client can name.
pub fn keyboard_keys() -> (r: Vec<u16>)
    ensures
        forall|name: Seq<char>| #[trigger] key_code_of(name) is Some ==> r@.contains(key_code_of(name)->0),
{
    let r = vec![
        KEY_A, KEY_B, KEY_C, KEY_D, KEY_E, KEY_F, KEY_G, KEY_H,
        KEY_I, KEY_J, KEY_K, KEY_L, KEY_M, KEY_N, KEY_O, KEY_P,
        KEY_Q, KEY_R, KEY_S, KEY_T, KEY_U, KEY_V, KEY_W, KEY_X,
        KEY_Y, KEY_Z, KEY_CAPSLOCK, KEY_ESC, KEY_GRAVE, KEY_0, KEY_1, KEY_2,
        KEY_3, KEY_4, KEY_5, KEY_6, KEY_7, KEY_8, KEY_9, KEY_MINUS,
        KEY_EQUAL, KEY_BACKSPACE, KEY_LEFTBRACE, KEY_RIGHTBRACE, KEY_BACKSLASH, KEY_TAB, KEY_LEFTSHIFT, KEY_LEFTCTRL,
        KEY_LEFTALT, KEY_SPACE, KEY_RIGHTALT, KEY_RIGHTCTRL, KEY_RIGHTSHIFT, KEY_ENTER,
    ];
    assert forall|name: Seq<char>| #[trigger] key_code_of(name) is Some implies r@.contains(
        key_code_of(name)->0,
    ) by {
        let c = key_code_of(name)->0;
        assert(exists|i: int| 0 <= i < r@.len() && r@[i] == c);
    }
    r
}

/// The buttons the virtual mouse offers.
pub fn mouse_buttons() -> (r: Vec<u16>)
    ensures
        r@ == seq![BTN_LEFT, BTN_RIGHT, BTN_MIDDLE],
{
    vec![BTN_LEFT, BTN_RIGHT, BTN_MIDDLE]
}

/// Relative axis turned by the scroll wheel.
pub const REL_WHEEL: u16 = 8;

/// The relative axes the virtual mouse offers.
pub fn mouse_axes() -> (r: Vec<u16>)
    ensures
        r@ == seq![REL_X, REL_Y, REL_WHEEL],
{
    vec![REL_X, REL_Y, REL_WHEEL]
}

/// Whether two strings hold the same characters.
fn same_text(a: &str, b: &str) -> (r: bool)
    ensures
        r == (a@ == b@),
{
    a.to_owned().eq(&b.to_owned())
}

pub open spec fn key_input_event(key: u16, direction: KeyDirection) -> RawInputEvent {
    RawInputEvent { event_type: EV_KEY, code: key, value: direction.spec_value() }
}

impl KeyEvent {
    /// The key event for a key named as browsers name it.
    pub fn from_js_key_name_with_direction(key: &str, direction: KeyDirection) -> (r: Result<
        KeyEvent,
        InputManagerError,
    >)
        ensures
            key_code_of(key@) matches Some(c) ==> r == Ok::<KeyEvent, InputManagerError>(
                KeyEvent { key: c, direction },
            ),
            key_code_of(key@) is None ==> (r matches Err(InputManagerError::UnknownKey(k)) && k@
                == key@),
    {
        let code = if same_text(key, "KeyA") {
            KEY_A
        } else if same_text(key, "KeyB") {
            KEY_B
        } else if same_text(key, "KeyC") {
            KEY_C
        } else if same_text(key, "KeyD") {
            KEY_D
        } else if same_text(key, "KeyE") {
            KEY_E
        } else if same_text(key, "KeyF") {
            KEY_F
        } else if same_text(key, "KeyG") {
            KEY_G
        } else if same_text(key, "KeyH") {
            KEY_H
        } else if same_text(key, "KeyI") {
            KEY_I
        } else if same_text(key, "KeyJ") {
            KEY_J
        } else if same_text(key, "KeyK") {
            KEY_K
        } else if same_text(key, "KeyL") {
            KEY_L
        } else if same_text(key, "KeyM") {
            KEY_M
        } else if same_text(key, "KeyN") {
            KEY_N
        } else if same_text(key, "KeyO") {
            KEY_O
        } else if same_text(key, "KeyP") {
            KEY_P
        } else if same_text(key, "KeyQ") {
            KEY_Q
        } else if same_text(key, "KeyR") {
            KEY_R
        } else if same_text(key, "KeyS") {
            KEY_S
        } else if same_text(key, "KeyT") {
            KEY_T
        } else if same_text(key, "KeyU") {
            KEY_U
        } else if same_text(key, "KeyV") {
            KEY_V
        } else if same_text(key, "KeyW") {
            KEY_W
        } else if same_text(key, "KeyX") {
            KEY_X
        } else if same_text(key, "KeyY") {
            KEY_Y
        } else if same_text(key, "KeyZ") {
            KEY_Z
        } else if same_text(key, "CapsLock") {
            KEY_CAPSLOCK
        } else if same_text(key, "Escape") {
            KEY_ESC
        } else if same_text(key, "Backquote") {
            KEY_GRAVE
        } else if same_text(key, "KEY0") {
            KEY_0
        } else if same_text(key, "KEY1") {
            KEY_1
        } else if same_text(key, "KEY2") {
            KEY_2
        } else if same_text(key, "KEY3") {
            KEY_3
        } else if same_text(key, "KEY4") {
            KEY_4
        } else if same_text(key, "KEY5") {
            KEY_5
        } else if same_text(key, "KEY6") {
            KEY_6
        } else if same_text(key, "KEY7") {
            KEY_7
        } else if same_text(key, "KEY8") {
            KEY_8
        } else if same_text(key, "KEY9") {
            KEY_9
        } else if same_text(key, "Minus") {
            KEY_MINUS
        } else if same_text(key, "Equal") {
            KEY_EQUAL
        } else if same_text(key, "Backspace") {
            KEY_BACKSPACE
        } else if same_text(key, "BracketLeft") {
            KEY_LEFTBRACE
        } else if same_text(key, "BracketRight") {
            KEY_RIGHTBRACE
        } else if same_text(key, "Backslash") {
            KEY_BACKSLASH
        } else if same_text(key, "Tab") {
            KEY_TAB
        } else if same_text(key, "ShiftLeft") {
            KEY_LEFTSHIFT
        } else if same_text(key, "ControlLeft") {
            KEY_LEFTCTRL
        } else if same_text(key, "AltLeft") {
            KEY_LEFTALT
        } else if same_text(key, "Space") {
            KEY_SPACE
        } else if same_text(key, "AltRight") {
            KEY_RIGHTALT
        } else if same_text(key, "ControlRight") {
            KEY_RIGHTCTRL
        } else if same_text(key, "ShiftRight") {
            KEY_RIGHTSHIFT
        } else if same_text(key, "Enter") {
            KEY_ENTER
        } else {
            return Err(InputManagerError::UnknownKey(key.to_owned()));
        };
        Ok(KeyEvent { key: code, direction })
    }

    /// The kernel event for this key movement.
    pub fn input_event(&self) -> (r: RawInputEvent)
        ensures
            r == key_input_event(self.key, self.direction),
    {
        RawInputEvent { event_type: EV_KEY, code: self.key, value: self.direction.value() }
    }
}


/// A relative mouse movement and wheel turn; zero means no change.
#[derive(Debug, Clone, Copy, PartialEq, Eq, Structural)]
pub struct MouseMoveEvent {
    pub x: i32,
    pub y: i32,
    pub wheel: i32,
}

pub open spec fn rel_event(axis: u16, value: i32) -> Seq<RawInputEvent> {
    if value != 0 {
        seq![RawInputEvent { event_type: EV_REL, code: axis, value }]
    } else {
        Seq::empty()
    }
}

/// The kernel events of one movement: one per axis that changed.
pub open spec fn move_input_events(m: MouseMoveEvent) -> Seq<RawInputEvent> {
    rel_event(REL_X, m.x) + rel_event(REL_Y, m.y) + rel_event(REL_HWHEEL_HI_RES, m.wheel)
}

impl MouseMoveEvent {
    pub fn new(x: i32, y: i32, wheel: i32) -> (r: Self)
        ensures
            r.x == x,
            r.y == y,
            r.wheel == wheel,
    {
        MouseMoveEvent { x, y, wheel }
    }

    pub fn get_input_events(&self) -> (r: Vec<RawInputEvent>)
        ensures
            r@ == move_input_events(*self),
    {
        let mut out: Vec<RawInputEvent> = Vec::new();
        if self.x != 0 {
            out.push(RawInputEvent { event_type: EV_REL, code: REL_X, value: self.x });
        }
        let ghost after_x = out@;
        if self.y != 0 {
            out.push(RawInputEvent { event_type: EV_REL, code: REL_Y, value: self.y });
        }
        let ghost after_y = out@;
        if self.wheel != 0 {
            out.push(RawInputEvent { event_type: EV_REL, code: REL_HWHEEL_HI_RES, value: self.wheel });
        }
        assert(after_x =~= rel_event(REL_X, self.x));
        assert(after_y =~= rel_event(REL_X, self.x) + rel_event(REL_Y, self.y));
        assert(out@ =~= move_input_events(*self));
        out
    }
}

/// A mouse button going up or down; `key` is a kernel button code.
#[derive(Debug, Clone, Copy, PartialEq, Eq, Structural)]
pub struct MouseButtonEvent {
    pub key: u16,
    pub direction: KeyDirection,
}

impl MouseButtonEvent {
    /// The kernel event for this button movement.
    pub fn input_event(&self) -> (r: RawInputEvent)
        ensures
            r == key_input_event(self.key, self.direction),
    {
        RawInputEvent { event_type: EV_KEY, code: self.key, value: self.direction.value() }
    }
}

/// A batch of input handed over by a client.
#[derive(Debug, Clone)]
pub enum InputManagerEvent {
    Keyboard(Vec<KeyEvent>),
    Mouse(Option<Vec<MouseMoveEvent>>, Option<Vec<MouseButtonEvent>>),
}

/// The virtual device a batch goes to.
#[derive(Debug, Clone, Copy, PartialEq, Eq, Structural)]
pub enum InputDevice {
    Keyboard,
    Mouse,
}

pub open spec fn key_events(keys: Seq<KeyEvent>) -> Seq<RawInputEvent> {
    keys.map_values(|k: KeyEvent| key_input_event(k.key, k.direction))
}

pub open spec fn button_events(buttons: Seq<MouseButtonEvent>) -> Seq<RawInputEvent> {
    buttons.map_values(|b: MouseButtonEvent| key_input_event(b.key, b.direction))
}

/// The events of all movements, in order.
pub open spec fn moves_events(moves: Seq<MouseMoveEvent>) -> Seq<RawInputEvent>
    decreases moves.len(),
{
    if moves.len() == 0 {
        Seq::empty()
    } else {
        moves_events(moves.drop_last()) + move_input_events(moves.last())
    }
}

/// The kernel events of a keyboard batch, in order.
pub fn keyboard_input_events(keys: &[KeyEvent]) -> (r: Vec<RawInputEvent>)
    ensures
        r@ == key_events(keys@),
{
    let mut out: Vec<RawInputEvent> = Vec::new();
    let mut i: usize = 0;
    while i < keys.len()
        invariant
            0 <= i <= keys@.len(),
            out@ == key_events(keys@.subrange(0, i as int)),
        decreases keys@.len() - i,
    {
        out.push(keys[i].input_event());
        assert(key_events(keys@.subrange(0, i + 1)) =~= key_events(keys@.subrange(0, i as int)).push(
            key_input_event(keys@[i as int].key, keys@[i as int].direction),
        ));
        i += 1;
    }
    assert(keys@.subrange(0, keys@.len() as int) =~= keys@);
    out
}

/// The kernel events of a mouse batch: every movement, then every button.
pub fn mouse_input_events(moves: &[MouseMoveEvent], buttons: &[MouseButtonEvent]) -> (r: Vec<
    RawInputEvent,
>)
    ensures
        r@ == moves_events(moves@) + button_events(buttons@),
{
    let mut out: Vec<RawInputEvent> = Vec::new();
    let mut i: usize = 0;
    while i < moves.len()
        invariant
            0 <= i <= moves@.len(),
            out@ == moves_events(moves@.subrange(0, i as int)),
        decreases moves@.len() - i,
    {
        let mut evs = moves[i].get_input_events();
        out.append(&mut evs);
        assert(moves@.subrange(0, i + 1).drop_last() =~= moves@.subrange(0, i as int));
        i += 1;
    }
    assert(moves@.subrange(0, moves@.len() as int) =~= moves@);
    let ghost base = out@;
    let mut j: usize = 0;
    while j < buttons.len()
        invariant
            0 <= j <= buttons@.len(),
            base == moves_events(moves@),
            out@ == base + button_events(buttons@.subrange(0, j as int)),
        decreases buttons@.len() - j,
    {
        out.push(buttons[j].input_event());
        assert(button_events(buttons@.subrange(0, j + 1)) =~= button_events(
            buttons@.subrange(0, j as int),
        ).push(key_input_event(buttons@[j as int].key, buttons@[j as int].direction)));
        j += 1;
    }
    assert(buttons@.subrange(0, buttons@.len() as int) =~= buttons@);
    out
}

impl InputManagerEvent {
    /// The device a batch goes to, and the kernel events to emit there; a
    /// missing part of a mouse batch counts as empty.
    pub fn route(&self) -> (r: (InputDevice, Vec<RawInputEvent>))
        ensures
            self matches InputManagerEvent::Keyboard(keys) ==> r.0 == InputDevice::Keyboard
                && r.1@ == key_events(keys@),
            self matches InputManagerEvent::Mouse(m, b) ==> r.0 == InputDevice::Mouse && r.1@
                == moves_events(
                match m {
                    Some(v) => v@,
                    None => Seq::empty(),
                },
            ) + button_events(
                match b {
                    Some(v) => v@,
                    None => Seq::empty(),
                },
            ),
    {
        match self {
            InputManagerEvent::Keyboard(keys) => (
                InputDevice::Keyboard,
                keyboard_input_events(keys.as_slice()),
            ),
            InputManagerEvent::Mouse(m, b) => {
                let no_moves: Vec<MouseMoveEvent> = Vec::new();
                let no_buttons: Vec<MouseButtonEvent> = Vec::new();
                let moves = match m {
                    Some(v) => v.as_slice(),
                    None => no_moves.as_slice(),
                };
                let buttons = match b {
                    Some(v) => v.as_slice(),
                    None => no_buttons.as_slice(),
                };
                (InputDevice::Mouse, mouse_input_events(moves, buttons))
            },
        }
    }
}

} // verus!
