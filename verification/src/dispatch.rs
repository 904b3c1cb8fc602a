//! Routing of key events to editor commands.
//!
//! The event loop owns the terminal and the clock; the decision which
//! command a key triggers in which mode is made here, as a pure function,
//! so that the routing tables are part of the verified library.

use vstd::prelude::*;

verus! {

/// A key event, reduced to what the routing tables distinguish.
#[derive(Clone, Copy, Debug, PartialEq, Eq)]
pub enum KeyInput {
    /// A printable character key.
    Char(char),
    /// The Enter key.
    Enter,
    /// The Backspace key.
    Backspace,
    /// The Escape key.
    Esc,
    /// Any other key; always ignored.
    Other,
}

/// The editor command a key event maps to.
#[derive(Clone, Copy, Debug, PartialEq, Eq)]
pub enum Action {
    /// Leave the event loop.
    Quit,
    /// Move the cursor up by one line.
    MoveUp,
    /// Move the cursor down by one line.
    MoveDown,
    /// Move the cursor left by one column.
    MoveLeft,
    /// Move the cursor right by one column.
    MoveRight,
    /// Switch to editing mode.
    EnterEditing,
    /// Switch back to normal mode.
    LeaveEditing,
    /// Insert a character (or split the line, for a line break).
    Write(char),
    /// Delete the character before the cursor.
    Delete,
    /// Do nothing.
    Ignore,
}

/// The two routing tables.
///
/// In normal mode: `q` quits, `k`/`j`/`h`/`l` move the cursor, `i` enters
/// editing mode, everything else is ignored. In editing mode: Escape leaves
/// editing mode, Backspace deletes, Enter writes a line break, a character
/// key writes that character, everything else is ignored.
pub open spec fn spec_dispatch(editing: bool, key: KeyInput) -> Action {
    if editing {
        match key {
            KeyInput::Esc => Action::LeaveEditing,
            KeyInput::Backspace => Action::Delete,
            KeyInput::Enter => Action::Write('\n'),
            KeyInput::Char(c) => Action::Write(c),
            KeyInput::Other => Action::Ignore,
        }
    } else {
        match key {
            KeyInput::Char(c) => {
                if c == 'q' {
                    Action::Quit
                } else if c == 'k' {
                    Action::MoveUp
                } else if c == 'j' {
                    Action::MoveDown
                } else if c == 'h' {
                    Action::MoveLeft
                } else if c == 'l' {
                    Action::MoveRight
                } else if c == 'i' {
                    Action::EnterEditing
                } else {
                    Action::Ignore
                }
            },
            _ => Action::Ignore,
        }
    }
}

/// Maps a key event to the editor command of the current mode, exactly as
/// the routing tables of `spec_dispatch` say.
pub fn dispatch(editing: bool, key: KeyInput) -> (a: Action)
    ensures
        a == spec_dispatch(editing, key),
{
    if editing {
        match key {
            KeyInput::Esc => Action::LeaveEditing,
            KeyInput::Backspace => Action::Delete,
            KeyInput::Enter => Action::Write('\n'),
            KeyInput::Char(c) => Action::Write(c),
            KeyInput::Other => Action::Ignore,
        }
    } else {
        match key {
            KeyInput::Char(c) => {
                if c == 'q' {
                    Action::Quit
                } else if c == 'k' {
                    Action::MoveUp
                } else if c == 'j' {
                    Action::MoveDown
                } else if c == 'h' {
                    Action::MoveLeft
                } else if c == 'l' {
                    Action::MoveRight
                } else if c == 'i' {
                    Action::EnterEditing
                } else {
                    Action::Ignore
                }
            },
            _ => Action::Ignore,
        }
    }
}

} // verus!
