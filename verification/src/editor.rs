//! The editor state machine: the current mode, the theme, the status
//! message and the command line, and what each keystroke does to them.

use crate::event::{KeyCode, KeyEvent};
use crate::style::Color;
use std::borrow::Cow;
use vstd::prelude::*;

verus! {

/// The editor's keystroke-interpretation context. Exactly one is active at
/// any instant, and it alone decides how a keystroke is handled.
#[derive(Clone, Copy, Debug, PartialEq, Eq, Structural)]
pub enum Mode {
    Normal,
    Insert,
    Select,
    Command,
}

impl Mode {
    /// The three-character mnemonic shown in the status bar.
    pub open spec fn label_text(self) -> Seq<char> {
        match self {
            Mode::Normal => "NOR"@,
            Mode::Insert => "INS"@,
            Mode::Select => "SEL"@,
            Mode::Command => "CMD"@,
        }
    }

    /// The three-character mnemonic shown in the status bar.
    pub fn label(&self) -> (text: &'static str)
        ensures
            text@ == self.label_text(),
            text@.len() == 3,
    {
        proof {
            reveal_strlit("NOR");
            reveal_strlit("INS");
            reveal_strlit("SEL");
            reveal_strlit("CMD");
        }
        match self {
            Mode::Normal => "NOR",
            Mode::Insert => "INS",
            Mode::Select => "SEL",
            Mode::Command => "CMD",
        }
    }
}

/// The colors of the interface.
#[derive(Clone, Copy, Debug, PartialEq, Eq, Structural)]
pub struct Theme {
    /// Background of everything but the status bar.
    pub default_bg: Color,
    /// Background of the status bar.
    pub status_bar_bg: Color,
}

impl Theme {
    /// The theme an editor starts with: black, with a near-black status bar.
    pub open spec fn initial() -> Theme {
        Theme { default_bg: Color::Black, status_bar_bg: Color::Rgb { r: 0x14, g: 0x14, b: 0x16 } }
    }
}

impl Default for Theme {
    fn default() -> (theme: Theme)
        ensures
            theme == Theme::initial(),
    {
        Theme { default_bg: Color::Black, status_bar_bg: Color::Rgb { r: 0x14, g: 0x14, b: 0x16 } }
    }
}

/// The text cursor. It carries no state yet.
pub struct Cursor {}

/// The editor: mode, theme, status message and command line.
///
/// The command line means something only in `Mode::Command`. It is emptied
/// on entry into that mode and keeps whatever it held when the mode is left.
#[derive(Debug, PartialEq, Eq)]
pub struct Editor {
    /// Current editing mode.
    pub mode: Mode,
    /// The currently applied theme.
    pub theme: Theme,
    /// What the status bar shows beside the mode, if anything: the path of
    /// a buffer, or the name of a pane.
    pub status_msg: Option<Cow<'static, str>>,
    /// The command line typed so far.
    pub cmd_buf: String,
}

/// An editor as a mathematical value.
pub ghost struct EditorView {
    pub mode: Mode,
    pub theme: Theme,
    pub status_msg: Option<Seq<char>>,
    pub cmd_buf: Seq<char>,
}

impl View for Editor {
    type V = EditorView;

    open spec fn view(&self) -> EditorView {
        EditorView {
            mode: self.mode,
            theme: self.theme,
            status_msg: match self.status_msg {
                Some(text) => Some(text@),
                None => None,
            },
            cmd_buf: self.cmd_buf@,
        }
    }
}

impl Clone for Editor {
    fn clone(&self) -> (copy: Editor)
        ensures
            copy@ == self@,
    {
        Editor {
            mode: self.mode,
            theme: self.theme,
            status_msg: match &self.status_msg {
                Some(Cow::Borrowed(text)) => Some(Cow::Borrowed(*text)),
                Some(Cow::Owned(text)) => Some(Cow::Owned(text.clone())),
                None => None,
            },
            cmd_buf: self.cmd_buf.clone(),
        }
    }
}

impl EditorView {
    /// The editor at start: normal mode, the initial theme, no status
    /// message, an empty command line.
    pub open spec fn initial() -> EditorView {
        EditorView {
            mode: Mode::Normal,
            theme: Theme::initial(),
            status_msg: None,
            cmd_buf: Seq::empty(),
        }
    }

    /// What a key does in normal mode: `:` empties the command line and
    /// enters command mode; every other key does nothing.
    pub open spec fn after_normal_key(self, key: KeyEvent) -> EditorView {
        match key.code {
            KeyCode::Char(c) if c == ':' => EditorView {
                mode: Mode::Command,
                cmd_buf: Seq::empty(),
                ..self
            },
            _ => self,
        }
    }

    /// What a key does in command mode: a character is appended to the
    /// command line, Backspace removes its last character if there is one,
    /// Escape returns to normal mode and leaves the command line as it is;
    /// every other key, Enter among them, does nothing.
    pub open spec fn after_command_key(self, key: KeyEvent) -> EditorView {
        match key.code {
            KeyCode::Char(c) => EditorView { cmd_buf: self.cmd_buf.push(c), ..self },
            KeyCode::Esc => EditorView { mode: Mode::Normal, ..self },
            KeyCode::Backspace => if self.cmd_buf.len() > 0 {
                EditorView { cmd_buf: self.cmd_buf.drop_last(), ..self }
            } else {
                self
            },
            _ => self,
        }
    }

    /// What a key does: decided by the mode alone. Insert and select mode
    /// handle no key yet.
    pub open spec fn after_key(self, key: KeyEvent) -> EditorView {
        match self.mode {
            Mode::Normal => self.after_normal_key(key),
            Mode::Insert => self,
            Mode::Select => self,
            Mode::Command => self.after_command_key(key),
        }
    }

    /// The editor after a sequence of keys, handled one after the other.
    pub open spec fn after_keys(self, keys: Seq<KeyEvent>) -> EditorView
        decreases keys.len(),
    {
        if keys.len() == 0 {
            self
        } else {
            self.after_keys(keys.drop_last()).after_key(keys.last())
        }
    }
}

impl Editor {
    /// An editor in normal mode with the default theme, no status message
    /// and an empty command line.
    pub fn new() -> (editor: Editor)
        ensures
            editor@ == EditorView::initial(),
    {
        Editor {
            mode: Mode::Normal,
            theme: Theme::default(),
            status_msg: None,
            cmd_buf: String::new(),
        }
    }

    /// Handles one key according to the current mode. Never fails.
    pub fn handle_key_event(&mut self, event: KeyEvent)
        ensures
            final(self)@ == old(self)@.after_key(event),
    {
        match self.mode {
            Mode::Normal => {
                self.handle_key_event_normal(event);
            },
            Mode::Insert => {},
            Mode::Select => {},
            Mode::Command => {
                self.handle_key_event_command(event);
            },
        }
    }

    /// Handles one key as normal mode does.
    pub(crate) fn handle_key_event_normal(&mut self, event: KeyEvent)
        ensures
            final(self)@ == old(self)@.after_normal_key(event),
    {
        match event.code {
            KeyCode::Char(':') => {
                self.cmd_buf.clear();
                self.mode = Mode::Command;
            },
            _ => {},
        }
    }

    /// Handles one key as command mode does.
    pub(crate) fn handle_key_event_command(&mut self, event: KeyEvent)
        ensures
            final(self)@ == old(self)@.after_command_key(event),
    {
        match event.code {
            KeyCode::Char(c) => {
                self.cmd_buf.push(c);
            },
            KeyCode::Esc => {
                self.mode = Mode::Normal;
            },
            KeyCode::Backspace => {
                self.cmd_buf.pop();
            },
            _ => {},
        }
    }
}

/// Typing `:` in normal mode enters command mode with an empty command
/// line, whatever the command line held before; theme and status message
/// stay as they were.
pub proof fn lemma_colon_enters_command_mode(editor: EditorView, colon: KeyEvent)
    requires
        editor.mode == Mode::Normal,
        colon.code == KeyCode::Char(':'),
    ensures
        editor.after_key(colon) == (EditorView {
            mode: Mode::Command,
            cmd_buf: Seq::<char>::empty(),
            ..editor
        }),
{
}

/// Keys handled from normal mode leave the editor in normal or in command
/// mode, never in another.
pub proof fn lemma_modes_reached_from_normal(editor: EditorView, keys: Seq<KeyEvent>)
    requires
        editor.mode == Mode::Normal,
    ensures
        editor.after_keys(keys).mode == Mode::Normal || editor.after_keys(keys).mode
            == Mode::Command,
    decreases keys.len(),
{
    if keys.len() > 0 {
        lemma_modes_reached_from_normal(editor, keys.drop_last());
    }
}

/// In normal mode only `:` does anything: a sequence of keys without it
/// leaves the whole editor as it was.
pub proof fn lemma_normal_mode_ignores_other_keys(editor: EditorView, keys: Seq<KeyEvent>)
    requires
        editor.mode == Mode::Normal,
        forall|i: int| 0 <= i < keys.len() ==> (#[trigger] keys[i]).code != KeyCode::Char(':'),
    ensures
        editor.after_keys(keys) == editor,
    decreases keys.len(),
{
    if keys.len() > 0 {
        lemma_normal_mode_ignores_other_keys(editor, keys.drop_last());
    }
}

/// After any sequence of keys that began in normal mode and has left the
/// editor in normal mode, typing `:` enters command mode with an empty
/// command line, whatever the command line held before.
pub proof fn lemma_colon_after_keys(editor: EditorView, keys: Seq<KeyEvent>, colon: KeyEvent)
    requires
        editor.mode == Mode::Normal,
        editor.after_keys(keys).mode == Mode::Normal,
        colon.code == KeyCode::Char(':'),
    ensures
        editor.after_keys(keys.push(colon)).mode == Mode::Command,
        editor.after_keys(keys.push(colon)).cmd_buf == Seq::<char>::empty(),
{
    assert(keys.push(colon).drop_last() == keys);
}

/// The characters of a sequence of character keys, in order.
pub open spec fn typed_chars(keys: Seq<KeyEvent>) -> Seq<char> {
    Seq::new(
        keys.len(),
        |i: int|
            match keys[i].code {
                KeyCode::Char(c) => c,
                _ => ' ',
            },
    )
}

/// In command mode a sequence of character keys appends exactly those
/// characters, in order, to the command line, and changes nothing else.
/// Typed into an empty command line, as it is on entry into command mode,
/// they are the whole of it.
pub proof fn lemma_typing_appends(editor: EditorView, keys: Seq<KeyEvent>)
    requires
        editor.mode == Mode::Command,
        forall|i: int| 0 <= i < keys.len() ==> (#[trigger] keys[i]).code is Char,
    ensures
        editor.after_keys(keys) == (EditorView {
            cmd_buf: editor.cmd_buf + typed_chars(keys),
            ..editor
        }),
        editor.cmd_buf.len() == 0 ==> editor.after_keys(keys).cmd_buf == typed_chars(keys),
    decreases keys.len(),
{
    assert(editor.cmd_buf.len() == 0 ==> editor.cmd_buf + typed_chars(keys) == typed_chars(keys));
    if keys.len() == 0 {
        assert(editor.cmd_buf + typed_chars(keys) == editor.cmd_buf);
    } else {
        let front = keys.drop_last();
        lemma_typing_appends(editor, front);
        assert(keys.last().code is Char);
        assert((editor.cmd_buf + typed_chars(front)).push(typed_chars(keys).last())
            == editor.cmd_buf + typed_chars(keys));
    }
}

/// Backspace on an empty command line changes nothing, however often it is
/// pressed: the command line stays empty and the mode stays command mode.
pub proof fn lemma_backspace_on_empty(editor: EditorView, backspace: KeyEvent)
    requires
        editor.mode == Mode::Command,
        editor.cmd_buf.len() == 0,
        backspace.code == KeyCode::Backspace,
    ensures
        editor.after_key(backspace) == editor,
        editor.after_key(backspace).after_key(backspace) == editor.after_key(backspace),
{
}

/// Escape in command mode returns to normal mode and leaves the command
/// line, the theme and the status message as they were.
pub proof fn lemma_escape_keeps_command_line(editor: EditorView, escape: KeyEvent)
    requires
        editor.mode == Mode::Command,
        escape.code == KeyCode::Esc,
    ensures
        editor.after_key(escape) == (EditorView { mode: Mode::Normal, ..editor }),
        editor.after_key(escape).cmd_buf == editor.cmd_buf,
{
}

/// The command line changes in three ways only. It is emptied on entry
/// into command mode, and then only; in command mode a key appends one
/// character to it or removes its last one, or leaves it as it is. No key
/// changes the theme or the status message.
pub proof fn lemma_command_line_changes(editor: EditorView, key: KeyEvent)
    ensures
        editor.after_key(key).theme == editor.theme,
        editor.after_key(key).status_msg == editor.status_msg,
        editor.mode != Mode::Command && editor.after_key(key).mode == Mode::Command
            ==> editor.after_key(key).cmd_buf == Seq::<char>::empty(),
        editor.mode != Mode::Command && editor.after_key(key).mode != Mode::Command
            ==> editor.after_key(key) == editor,
        editor.mode == Mode::Command ==> match key.code {
            KeyCode::Char(c) => editor.after_key(key).cmd_buf == editor.cmd_buf.push(c),
            KeyCode::Backspace if editor.cmd_buf.len() > 0 => editor.after_key(key).cmd_buf
                == editor.cmd_buf.drop_last(),
            _ => editor.after_key(key).cmd_buf == editor.cmd_buf,
        },
{
}

} // verus!
