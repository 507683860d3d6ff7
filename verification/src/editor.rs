//! The text-editor vocabulary that the Vim layer reads and answers with:
//! key presses as plain values, motions, bindings and the application
//! messages that a binding can carry.

use vstd::prelude::*;

use crate::vim::VimMode;

verus! {

/// A cursor motion of the text editor.
#[derive(Debug, Clone, Copy, PartialEq, Eq, Structural)]
pub enum Motion {
    Left,
    Right,
    Up,
    Down,
    WordLeft,
    WordRight,
    Home,
    End,
    PageUp,
    PageDown,
    DocumentStart,
    DocumentEnd,
}

/// The wider counterpart of a motion: characters widen to words and line
/// boundaries widen to document boundaries; other motions stay as they are.
pub open spec fn widened(m: Motion) -> Motion {
    match m {
        Motion::Left => Motion::WordLeft,
        Motion::Right => Motion::WordRight,
        Motion::Home => Motion::DocumentStart,
        Motion::End => Motion::DocumentEnd,
        _ => m,
    }
}

impl Motion {
    /// Widens the motion (see [`widened`]).
    pub fn widen(self) -> (m: Motion)
        ensures
            m == widened(self),
    {
        match self {
            Motion::Left => Motion::WordLeft,
            Motion::Right => Motion::WordRight,
            Motion::Home => Motion::DocumentStart,
            Motion::End => Motion::DocumentEnd,
            other => other,
        }
    }
}

/// Requests of the Vim layer that the application carries out itself.
#[derive(Debug, Clone, Copy, PartialEq, Eq, Structural)]
pub enum VimAction {
    Escape,
    GoToTop,
    GoToBottom,
    VisualGoToTop,
    VisualGoToBottom,
    YankLine,
    DeleteLine,
    SetMode(VimMode),
    Paste { before: bool },
}

/// Application messages that a key binding can carry.
#[derive(Debug, Clone, Copy, PartialEq, Eq, Structural)]
pub enum Message {
    Vim(VimAction),
    Undo,
    Redo,
}

/// What the text editor does in answer to a key press.
#[derive(Debug, PartialEq, Eq)]
pub enum Binding {
    Unfocus,
    Copy,
    Cut,
    Paste,
    Move(Motion),
    Select(Motion),
    SelectWord,
    SelectLine,
    SelectAll,
    Insert(char),
    Enter,
    Backspace,
    Delete,
    Sequence(Vec<Binding>),
    Custom(Message),
}

/// The named (non-character) keys that the Vim layer tells apart.
#[derive(Debug, Clone, Copy, PartialEq, Eq, Structural)]
pub enum NamedKey {
    Escape,
    ArrowLeft,
    ArrowRight,
    ArrowUp,
    ArrowDown,
    Home,
    End,
    PageUp,
    PageDown,
    Enter,
    Backspace,
    Tab,
    Other,
}

/// A logical key.
#[derive(Debug, Clone, PartialEq, Eq)]
pub enum Key {
    Named(NamedKey),
    Character(String),
    Unidentified,
}

/// The modifier keys held during a key press. `command` is the platform's
/// command modifier (the logo key on macOS, Control elsewhere).
#[derive(Debug, Clone, Copy, PartialEq, Eq, Structural)]
pub struct Modifiers {
    pub shift: bool,
    pub control: bool,
    pub alt: bool,
    pub command: bool,
}

impl Default for Modifiers {
    fn default() -> (m: Modifiers)
        ensures
            !m.shift && !m.control && !m.alt && !m.command,
    {
        Modifiers { shift: false, control: false, alt: false, command: false }
    }
}

/// The state of the text editor widget when the key was pressed.
#[derive(Debug, Clone, Copy, PartialEq, Eq, Structural)]
pub enum Status {
    Active,
    Hovered,
    Focused { is_hovered: bool },
    Disabled,
}

/// A key press as the text editor reports it.
///
/// `latin` is the Latin character that the key stands for on the keyboard
/// layout in use (the result of the toolkit's `to_latin` on the physical key),
/// if there is one.
#[derive(Debug, Clone, PartialEq, Eq)]
pub struct KeyPress {
    pub key: Key,
    pub modified_key: Key,
    pub latin: Option<char>,
    pub modifiers: Modifiers,
    pub status: Status,
}

} // verus!
