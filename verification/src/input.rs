//! Translation of terminal input events into control actions.
//!
//! The event source hands the router plain values describing each event;
//! recognized keys become a control action and everything else is dropped
//! silently.

use vstd::prelude::*;

verus! {

/// The key of a key press, as far as the toolkit reads it.
#[derive(Clone, Copy, Debug, PartialEq, Eq, Structural)]
pub enum Key {
    Character(char),
    Escape,
    Backspace,
    OtherKey,
}

/// The modifier held during a key press: none, control alone, or any
/// other combination.
#[derive(Clone, Copy, Debug, PartialEq, Eq, Structural)]
pub enum KeyModifier {
    Plain,
    Control,
    OtherModifier,
}

#[derive(Clone, Copy, Debug, PartialEq, Eq, Structural)]
pub struct KeyPress {
    pub code: Key,
    pub modifier: KeyModifier,
}

/// One terminal input event: a key press, a pointer event, or a resize.
#[derive(Clone, Copy, Debug, PartialEq, Eq, Structural)]
pub enum InputEvent {
    KeyInput(KeyPress),
    PointerInput,
    ResizeInput,
}

/// A control action of the pomodoro session.
#[derive(Clone, Copy, Debug, PartialEq, Eq, Structural)]
pub enum PomoInput {
    Help,
    Pause,
    Skip,
    Quit,
}

/// The closed mapping from key presses to control actions: help on `h`
/// (no modifier) or `?`, pause on space, skip on `s` (no modifier), quit
/// on escape, `q` (no modifier) or control-`c`. Everything else is no
/// action.
pub open spec fn route_key_spec(k: KeyPress) -> Option<PomoInput> {
    if k.code is Escape {
        Some(PomoInput::Quit)
    } else if k.code == Key::Character(' ') {
        Some(PomoInput::Pause)
    } else if k.code == Key::Character('?') {
        Some(PomoInput::Help)
    } else if k.code == Key::Character('c') && k.modifier is Control {
        Some(PomoInput::Quit)
    } else if k.code == Key::Character('h') && k.modifier is Plain {
        Some(PomoInput::Help)
    } else if k.code == Key::Character('q') && k.modifier is Plain {
        Some(PomoInput::Quit)
    } else if k.code == Key::Character('s') && k.modifier is Plain {
        Some(PomoInput::Skip)
    } else {
        None
    }
}

/// Non-keyboard events map to no action.
pub open spec fn route_spec(e: InputEvent) -> Option<PomoInput> {
    match e {
        InputEvent::KeyInput(k) => route_key_spec(k),
        InputEvent::PointerInput => None,
        InputEvent::ResizeInput => None,
    }
}

impl PomoInput {
    /// The action a key press maps to, if any.
    pub fn from_key(k: &KeyPress) -> (a: Option<PomoInput>)
        ensures
            a == route_key_spec(*k),
    {
        match k.code {
            Key::Escape => Some(PomoInput::Quit),
            Key::Character(c) => {
                if c == ' ' {
                    Some(PomoInput::Pause)
                } else if c == '?' {
                    Some(PomoInput::Help)
                } else if c == 'c' && matches!(k.modifier, KeyModifier::Control) {
                    Some(PomoInput::Quit)
                } else if matches!(k.modifier, KeyModifier::Plain) {
                    if c == 'h' {
                        Some(PomoInput::Help)
                    } else if c == 'q' {
                        Some(PomoInput::Quit)
                    } else if c == 's' {
                        Some(PomoInput::Skip)
                    } else {
                        None
                    }
                } else {
                    None
                }
            },
            _ => None,
        }
    }

    /// The action an input event maps to, if any: pointer and resize
    /// events are dropped, never surfaced as errors.
    pub fn from_event(e: &InputEvent) -> (a: Option<PomoInput>)
        ensures
            a == route_spec(*e),
    {
        match e {
            InputEvent::KeyInput(k) => PomoInput::from_key(k),
            _ => None,
        }
    }
}

} // verus!
