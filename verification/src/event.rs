//! Input events as the editor reads them.

use vstd::prelude::*;

verus! {

/// The key of a key event. Keys that no mode gives a meaning to are `Other`.
#[derive(Clone, Copy, Debug, PartialEq, Eq, Structural)]
pub enum KeyCode {
    /// A character key.
    Char(char),
    /// The Escape key.
    Esc,
    /// The Backspace key.
    Backspace,
    /// The Enter key.
    Enter,
    /// Any other key.
    Other,
}

/// The modifier keys held while a key event happened.
#[derive(Clone, Copy, Debug, PartialEq, Eq, Structural)]
pub struct KeyModifiers {
    pub shift: bool,
    pub control: bool,
    pub alt: bool,
    pub super_key: bool,
    pub hyper: bool,
    pub meta: bool,
}

impl KeyModifiers {
    /// No modifier held.
    pub open spec fn spec_none() -> KeyModifiers {
        KeyModifiers {
            shift: false,
            control: false,
            alt: false,
            super_key: false,
            hyper: false,
            meta: false,
        }
    }

    /// Control held, and nothing else.
    pub open spec fn spec_control() -> KeyModifiers {
        KeyModifiers {
            shift: false,
            control: true,
            alt: false,
            super_key: false,
            hyper: false,
            meta: false,
        }
    }

    /// No modifier held.
    #[verifier::when_used_as_spec(spec_none)]
    pub fn none() -> (modifiers: KeyModifiers)
        ensures
            modifiers == Self::spec_none(),
    {
        KeyModifiers {
            shift: false,
            control: false,
            alt: false,
            super_key: false,
            hyper: false,
            meta: false,
        }
    }

    /// Control held, and nothing else.
    #[verifier::when_used_as_spec(spec_control)]
    pub fn control() -> (modifiers: KeyModifiers)
        ensures
            modifiers == Self::spec_control(),
    {
        KeyModifiers {
            shift: false,
            control: true,
            alt: false,
            super_key: false,
            hyper: false,
            meta: false,
        }
    }
}

/// Whether a key went down, is held down, or came up.
#[derive(Clone, Copy, Debug, PartialEq, Eq, Structural)]
pub enum KeyEventKind {
    Press,
    Repeat,
    Release,
}

/// One key event.
#[derive(Clone, Copy, Debug, PartialEq, Eq, Structural)]
pub struct KeyEvent {
    pub code: KeyCode,
    pub modifiers: KeyModifiers,
    pub kind: KeyEventKind,
}

impl KeyEvent {
    /// The press of `code` with `modifiers` held.
    pub open spec fn spec_new(code: KeyCode, modifiers: KeyModifiers) -> KeyEvent {
        KeyEvent { code, modifiers, kind: KeyEventKind::Press }
    }

    /// The press of `code` with `modifiers` held.
    #[verifier::when_used_as_spec(spec_new)]
    pub fn new(code: KeyCode, modifiers: KeyModifiers) -> (event: KeyEvent)
        ensures
            event == Self::spec_new(code, modifiers),
    {
        KeyEvent { code, modifiers, kind: KeyEventKind::Press }
    }

    /// The quit chord: the character `c` with Control, and only Control,
    /// held.
    pub open spec fn is_quit_chord(self) -> bool {
        self.code == KeyCode::Char('c') && self.modifiers == KeyModifiers::spec_control()
    }

    /// A key going down or held down, as opposed to one coming up.
    pub open spec fn is_press(self) -> bool {
        self.kind != KeyEventKind::Release
    }
}

/// One event read from the terminal.
#[derive(Clone, Copy, Debug, PartialEq, Eq, Structural)]
pub enum Event {
    /// A key event.
    Key(KeyEvent),
    /// The terminal was resized to this many columns and rows.
    Resize(u16, u16),
    /// An event that the application has no use for (focus, mouse, paste).
    Other,
}

} // verus!
