//! Keys, buttons and the pointer state that the window hands to the regions.

use vstd::prelude::*;

verus! {

/// Whether a key or a button went down or came up.
#[derive(Clone, Copy, Debug, PartialEq, Eq, Structural)]
pub enum ElementState {
    Pressed,
    Released,
}

impl ElementState {
    pub fn is_pressed(self) -> (pressed: bool)
        ensures
            pressed == (self == ElementState::Pressed),
    {
        match self {
            ElementState::Pressed => true,
            ElementState::Released => false,
        }
    }
}

/// A button of the pointer.
#[derive(Clone, Copy, Debug, PartialEq, Eq, Structural)]
pub enum MouseButton {
    Left,
    Right,
    Middle,
    Back,
    Forward,
    Other(u16),
}

/// The modifier keys that are held down.
#[derive(Clone, Copy, Debug, PartialEq, Eq, Structural)]
pub struct ModifiersState {
    pub shift: bool,
    pub control: bool,
    pub alt: bool,
    pub logo: bool,
}

impl ModifiersState {
    /// No modifier held.
    pub fn empty() -> (m: ModifiersState)
        ensures
            m == (ModifiersState { shift: false, control: false, alt: false, logo: false }),
    {
        ModifiersState { shift: false, control: false, alt: false, logo: false }
    }

    pub fn control_key(&self) -> (held: bool)
        ensures
            held == self.control,
    {
        self.control
    }
}

/// What the window knows of pointer and keyboard between two events.
/// Pointer positions are in pixels, from the top left corner of the window.
#[derive(Clone, Copy, Debug, PartialEq, Eq, Structural)]
pub struct InputState {
    pub mouse_left_state: ElementState,
    pub mouse_pos_x: i32,
    pub mouse_pos_y: i32,
    pub unapplied_scroll_data: i32,
    pub modifier_state: ModifiersState,
}

impl Default for InputState {
    fn default() -> (state: InputState)
        ensures
            state == (InputState {
                mouse_left_state: ElementState::Released,
                mouse_pos_x: 0,
                mouse_pos_y: 0,
                unapplied_scroll_data: 0,
                modifier_state: ModifiersState {
                    shift: false,
                    control: false,
                    alt: false,
                    logo: false,
                },
            }),
    {
        InputState {
            mouse_left_state: ElementState::Released,
            mouse_pos_x: 0,
            mouse_pos_y: 0,
            unapplied_scroll_data: 0,
            modifier_state: ModifiersState::empty(),
        }
    }
}

/// A key that is named for what it does, not for a character.
#[derive(Clone, Copy, Debug, PartialEq, Eq, Structural)]
pub enum NamedKey {
    Enter,
    Tab,
    Space,
    Backspace,
    Escape,
    Delete,
    Insert,
    Home,
    End,
    PageUp,
    PageDown,
    ArrowLeft,
    ArrowRight,
    ArrowUp,
    ArrowDown,
    Shift,
    Control,
    Alt,
    Super,
    CapsLock,
    /// Any named key that the editor has no use for.
    Other,
}

impl NamedKey {
    /// The text that a named key stands for, if any: a carriage return for
    /// Enter, a backspace character for Backspace, a tab for Tab, a space for
    /// Space and an escape character for Escape.
    pub open spec fn text_of(self) -> Option<Seq<char>> {
        match self {
            NamedKey::Enter => Some(seq!['\r']),
            NamedKey::Backspace => Some(seq!['\x08']),
            NamedKey::Tab => Some(seq!['\t']),
            NamedKey::Space => Some(seq![' ']),
            NamedKey::Escape => Some(seq!['\x1b']),
            _ => None,
        }
    }

    pub fn to_text(&self) -> (text: Option<&'static str>)
        ensures
            text.is_some() == self.text_of().is_some(),
            text matches Some(s) ==> Some(s@) == self.text_of(),
    {
        proof {
            reveal_strlit("\r");
            reveal_strlit("\x08");
            reveal_strlit("\t");
            reveal_strlit(" ");
            reveal_strlit("\x1b");
        }
        match self {
            NamedKey::Enter => {
                assert("\r"@ =~= seq!['\r']);
                Some("\r")
            },
            NamedKey::Backspace => {
                assert("\x08"@ =~= seq!['\x08']);
                Some("\x08")
            },
            NamedKey::Tab => {
                assert("\t"@ =~= seq!['\t']);
                Some("\t")
            },
            NamedKey::Space => {
                assert(" "@ =~= seq![' ']);
                Some(" ")
            },
            NamedKey::Escape => {
                assert("\x1b"@ =~= seq!['\x1b']);
                Some("\x1b")
            },
            _ => None,
        }
    }
}

/// A key as the keyboard layout reports it.
#[derive(Clone, Debug)]
pub enum Key {
    /// A key named for its action.
    Named(NamedKey),
    /// The characters that the key types.
    Character(String),
    /// A key that the platform has no name for.
    Unidentified,
    /// A dead key, with the accent it carries where that is known.
    Dead(Option<char>),
}

impl Key {
    /// The text that the key types: its characters, or the text of a named
    /// key; none for every other key.
    pub open spec fn text_of(self) -> Option<Seq<char>> {
        match self {
            Key::Named(named) => named.text_of(),
            Key::Character(characters) => Some(characters@),
            _ => None,
        }
    }

    pub fn to_text(&self) -> (text: Option<&str>)
        ensures
            text.is_some() == self.text_of().is_some(),
            text matches Some(s) ==> Some(s@) == self.text_of(),
    {
        match self {
            Key::Named(named) => named.to_text(),
            Key::Character(characters) => Some(characters.as_str()),
            _ => None,
        }
    }
}

} // verus!
