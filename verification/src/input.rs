//! Buttons and button events.
//!
//! The input device reports key events by Linux key code; the codes below
//! are the fixed mapping of the device's physical buttons.  An event carries
//! a button and whether it was pressed, released or held.

use vstd::prelude::*;

verus! {

/// A physical button of the device.
#[derive(Clone, Copy, Debug, PartialEq, Eq, Structural)]
pub enum Button {
    Up,
    Down,
    Left,
    Right,
    Start,
    Select,
    A,
    B,
    X,
    Y,
    L1,
    L2,
    R1,
    R2,
    Menu,
    Power,
    VolUp,
    VolDown,
}

impl Button {
    /// A distinct index below 18 for each button, used to key the held-set.
    pub open spec fn spec_index(self) -> int {
        match self {
            Button::Up => 0,
            Button::Down => 1,
            Button::Left => 2,
            Button::Right => 3,
            Button::Start => 4,
            Button::Select => 5,
            Button::A => 6,
            Button::B => 7,
            Button::X => 8,
            Button::Y => 9,
            Button::L1 => 10,
            Button::L2 => 11,
            Button::R1 => 12,
            Button::R2 => 13,
            Button::Menu => 14,
            Button::Power => 15,
            Button::VolUp => 16,
            Button::VolDown => 17,
        }
    }

    pub fn index(self) -> (r: usize)
        ensures
            r == self.spec_index(),
            r < 18,
    {
        match self {
            Button::Up => 0,
            Button::Down => 1,
            Button::Left => 2,
            Button::Right => 3,
            Button::Start => 4,
            Button::Select => 5,
            Button::A => 6,
            Button::B => 7,
            Button::X => 8,
            Button::Y => 9,
            Button::L1 => 10,
            Button::L2 => 11,
            Button::R1 => 12,
            Button::R2 => 13,
            Button::Menu => 14,
            Button::Power => 15,
            Button::VolUp => 16,
            Button::VolDown => 17,
        }
    }

    /// The button bound to a Linux key code, if any.
    pub open spec fn spec_from_raw(key_code: u16) -> Option<Button> {
        if key_code == 1 {
            Some(Button::Menu)
        } else if key_code == 116 {
            Some(Button::Power)
        } else if key_code == 97 {
            Some(Button::Select)
        } else if key_code == 28 {
            Some(Button::Start)
        } else if key_code == 18 {
            Some(Button::L1)
        } else if key_code == 20 {
            Some(Button::R1)
        } else if key_code == 15 {
            Some(Button::L2)
        } else if key_code == 14 {
            Some(Button::R2)
        } else if key_code == 115 {
            Some(Button::VolUp)
        } else if key_code == 114 {
            Some(Button::VolDown)
        } else if key_code == 57 {
            Some(Button::A)
        } else if key_code == 29 {
            Some(Button::B)
        } else if key_code == 42 {
            Some(Button::X)
        } else if key_code == 56 {
            Some(Button::Y)
        } else {
            None
        }
    }

    /// Decodes a Linux key code into the button it is bound to.
    pub fn from_raw(key_code: u16) -> (r: Option<Button>)
        ensures
            r == Button::spec_from_raw(key_code),
    {
        match key_code {
            1 => Some(Button::Menu),
            116 => Some(Button::Power),
            97 => Some(Button::Select),
            28 => Some(Button::Start),
            18 => Some(Button::L1),
            20 => Some(Button::R1),
            15 => Some(Button::L2),
            14 => Some(Button::R2),
            115 => Some(Button::VolUp),
            114 => Some(Button::VolDown),
            57 => Some(Button::A),
            29 => Some(Button::B),
            42 => Some(Button::X),
            56 => Some(Button::Y),
            _ => None,
        }
    }
}

/// The state change a key event reports.
#[derive(Clone, Copy, Debug, PartialEq, Eq, Structural)]
pub enum EventValue {
    Released,
    Pressed,
    /// Reported by the kernel for auto-repeat; currently unused.
    Held,
}

impl EventValue {
    /// The event value for a raw key-event value: 0 is a release, 1 a press,
    /// anything else is not a recognised button event.
    pub open spec fn spec_from_raw(value: i32) -> Option<EventValue> {
        if value == 0 {
            Some(EventValue::Released)
        } else if value == 1 {
            Some(EventValue::Pressed)
        } else {
            None
        }
    }

    pub fn from_raw(value: i32) -> (r: Option<EventValue>)
        ensures
            r == EventValue::spec_from_raw(value),
    {
        if value == 0 {
            Some(EventValue::Released)
        } else if value == 1 {
            Some(EventValue::Pressed)
        } else {
            None
        }
    }
}

/// A button press, release or hold.
#[derive(Clone, Copy, Debug, PartialEq, Eq, Structural)]
pub struct ButtonEvent {
    pub button: Button,
    pub value: EventValue,
}

impl ButtonEvent {
    pub open spec fn spec_button(self) -> Button {
        self.button
    }

    pub open spec fn spec_value(self) -> EventValue {
        self.value
    }

    pub fn new(button: Button, value: EventValue) -> (r: ButtonEvent)
        ensures
            r.spec_button() == button,
            r.spec_value() == value,
    {
        ButtonEvent { button, value }
    }

    /// Builds an event from a raw key code and event value, if both decode.
    pub fn from_raw(key_code: u16, value: EventValue) -> (r: Option<ButtonEvent>)
        ensures
            match Button::spec_from_raw(key_code) {
                Some(b) => r == Some(ButtonEvent::new_spec(b, value)),
                None => r is None,
            },
    {
        match Button::from_raw(key_code) {
            Some(button) => Some(ButtonEvent { button, value }),
            None => None,
        }
    }

    pub open spec fn new_spec(button: Button, value: EventValue) -> ButtonEvent {
        ButtonEvent { button, value }
    }

    pub fn button(&self) -> (r: &Button)
        ensures
            r == self.spec_button(),
    {
        &self.button
    }

    pub fn value(&self) -> (r: &EventValue)
        ensures
            r == self.spec_value(),
    {
        &self.value
    }

    pub fn pressed(&self) -> (r: bool)
        ensures
            r == (self.spec_value() == EventValue::Pressed),
    {
        self.value == EventValue::Pressed
    }

    pub fn released(&self) -> (r: bool)
        ensures
            r == (self.spec_value() == EventValue::Released),
    {
        self.value == EventValue::Released
    }

    pub fn held(&self) -> (r: bool)
        ensures
            r == (self.spec_value() == EventValue::Held),
    {
        self.value == EventValue::Held
    }

    pub fn is_pressed(&self, target: Button) -> (r: bool)
        ensures
            r == (self.spec_button() == target && self.spec_value() == EventValue::Pressed),
    {
        self.button == target && self.pressed()
    }

    pub fn is_released(&self, target: Button) -> (r: bool)
        ensures
            r == (self.spec_button() == target && self.spec_value() == EventValue::Released),
    {
        self.button == target && self.released()
    }

    pub fn is_held(&self, target: Button) -> (r: bool)
        ensures
            r == (self.spec_button() == target && self.spec_value() == EventValue::Held),
    {
        self.button == target && self.held()
    }
}

/// The set of currently held buttons, rebuilt by the run loop from the
/// stream of press and release events.  Owned by the run-loop thread only.
#[derive(Clone, Copy, Debug)]
pub struct InputState {
    pub held: [bool; 18],
}

impl InputState {
    pub open spec fn spec_held(self, b: Button) -> bool {
        self.held@[b.spec_index()]
    }

    /// No button held.
    pub fn new() -> (r: InputState)
        ensures
            forall|b: Button| !r.spec_held(b),
    {
        InputState { held: [false;18] }
    }

    /// Whether `b` is currently held.
    pub fn is_held(&self, b: Button) -> (r: bool)
        ensures
            r == self.spec_held(b),
    {
        self.held[b.index()]
    }

    /// Applies one event: a press marks the button held, anything else
    /// (release or hold repeat) clears it, and no other button changes.
    pub fn apply_event(&mut self, ev: &ButtonEvent)
        ensures
            final(self).spec_held(ev.spec_button()) == (ev.spec_value() == EventValue::Pressed),
            forall|b: Button|
                b != ev.spec_button() ==> #[trigger] final(self).spec_held(b) == old(
                    self,
                ).spec_held(b),
    {
        let idx = ev.button().index();
        let pressed = ev.pressed();
        self.held[idx] = pressed;
        proof {
            assert forall|b: Button|
                b != ev.spec_button() implies #[trigger] final(self).spec_held(b) == old(
                self,
            ).spec_held(b) by {
                lemma_button_index_injective(b, ev.spec_button());
            }
        }
    }
}

/// Distinct buttons have distinct indices.
proof fn lemma_button_index_injective(a: Button, b: Button)
    requires
        a != b,
    ensures
        a.spec_index() != b.spec_index(),
{
}

} // verus!
