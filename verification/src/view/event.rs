//! Input events, and what handling one asks of the scene stack.

use vstd::prelude::*;

verus! {

/// A key of the keyboard.
#[derive(Clone, Copy, Debug, PartialEq, Eq, Structural)]
pub enum KeyCode {
    Backspace,
    Enter,
    Left,
    Right,
    Up,
    Down,
    Home,
    End,
    Tab,
    Delete,
    Esc,
    Char(char),
    /// Any key that nothing here tells apart.
    Other,
}

/// Whether a key went down, is held, or came up.
#[derive(Clone, Copy, Debug, PartialEq, Eq, Structural)]
pub enum KeyKind {
    Press,
    Repeat,
    Release,
}

/// One event of a key.
#[derive(Clone, Copy, Debug, PartialEq, Eq, Structural)]
pub struct KeyEvent {
    pub code: KeyCode,
    pub kind: KeyKind,
    /// The modifier keys held, as the terminal's bit set.
    pub modifiers: u8,
}

/// An input event.
#[derive(Clone, Copy, Debug, PartialEq, Eq, Structural)]
pub enum Event {
    Key(KeyEvent),
    /// A mouse button went down over the cell at `column`, `row`.
    MouseDown { column: u16, row: u16 },
    /// Any event that nothing here acts on.
    Other,
}

impl Event {
    /// The key that `self` reports as pressed, if it reports one.
    pub open spec fn pressed(self) -> Option<KeyCode> {
        match self {
            Event::Key(key) => if key.kind == KeyKind::Press {
                Some(key.code)
            } else {
                None
            },
            _ => None,
        }
    }

    /// The key that this event reports as pressed, if it reports one. Keys
    /// held down or released, and all other events, report none.
    pub fn pressed_key(&self) -> (code: Option<KeyCode>)
        ensures
            code == self.pressed(),
    {
        match self {
            Event::Key(key) => {
                if key.kind == KeyKind::Press {
                    Some(key.code)
                } else {
                    None
                }
            },
            _ => None,
        }
    }

    /// A press of `code` with no modifier held.
    pub fn press(code: KeyCode) -> (event: Event)
        ensures
            event == Event::Key(KeyEvent { code, kind: KeyKind::Press, modifiers: 0 }),
    {
        Event::Key(KeyEvent { code, kind: KeyKind::Press, modifiers: 0 })
    }
}

/// What the handling of an event asks of whoever owns the scenes. `T` is
/// what stands for a scene.
pub enum HandleResult<T> {
    /// Pop the current scene.
    Close,
    /// Push a new scene.
    Open(T),
    /// Pop the current scene and push a new one.
    Replace(T),
    /// The event was used; nothing else is to be done with it.
    Consume,
    /// The event was not used; the caller may handle it.
    Default,
}

/// What an element or a scene may be asked to answer.
pub enum Occasion {
    /// An event, before anything is made of it.
    Event(Event),
    /// A key that was pressed.
    Key(KeyCode),
    /// Being selected.
    Select,
    /// Being asked for a roll.
    Roll,
}

/// What a key asks of the element it is pressed on.
#[derive(Clone, Copy, Debug, PartialEq, Eq, Structural)]
pub enum ElKey {
    Select,
    Roll,
    Unbound,
}

/// What `code` asks of an element: Enter selects, `r` rolls.
pub open spec fn bound_to(code: KeyCode) -> ElKey {
    match code {
        KeyCode::Enter => ElKey::Select,
        KeyCode::Char(c) => if c == 'r' {
            ElKey::Roll
        } else {
            ElKey::Unbound
        },
        _ => ElKey::Unbound,
    }
}

/// What `code` asks of the element it is pressed on.
pub fn key_binding(code: KeyCode) -> (key: ElKey)
    ensures
        key == bound_to(code),
{
    match code {
        KeyCode::Enter => ElKey::Select,
        KeyCode::Char('r') => ElKey::Roll,
        _ => ElKey::Unbound,
    }
}

} // verus!
