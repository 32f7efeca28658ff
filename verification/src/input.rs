//! Mapping logical keys to navigation commands.

use vstd::prelude::*;

verus! {

/// A logical key, as delivered by the input edge.
#[derive(Clone, Copy, PartialEq, Eq, Structural, Debug)]
pub enum Key {
    Up,
    Down,
    Enter,
    Right,
    Left,
    Backspace,
    Char(char),
    Other,
}

/// A navigation command.
#[derive(Clone, Copy, PartialEq, Eq, Structural, Debug)]
pub enum Command {
    /// Move the selection by this many lines.
    Move(i64),
    /// Enter the selected item.
    Enter,
    /// Go to the parent of the current path.
    Up,
    /// End the session.
    Quit,
}

/// The fixed key bindings: up and down move the selection, enter and
/// right enter the selection, left and backspace go up, `q` quits, and
/// every other key does nothing.
pub open spec fn spec_key_command(k: Key) -> Option<Command> {
    match k {
        Key::Up => Some(Command::Move(-1i64)),
        Key::Down => Some(Command::Move(1i64)),
        Key::Enter => Some(Command::Enter),
        Key::Right => Some(Command::Enter),
        Key::Left => Some(Command::Up),
        Key::Backspace => Some(Command::Up),
        Key::Char(c) => if c == 'q' {
            Some(Command::Quit)
        } else {
            None
        },
        Key::Other => None,
    }
}

/// Maps a key to its command, exactly as the fixed bindings say.
pub fn key_to_command(k: Key) -> (r: Option<Command>)
    ensures
        r == spec_key_command(k),
{
    match k {
        Key::Up => Some(Command::Move(-1)),
        Key::Down => Some(Command::Move(1)),
        Key::Enter => Some(Command::Enter),
        Key::Right => Some(Command::Enter),
        Key::Left => Some(Command::Up),
        Key::Backspace => Some(Command::Up),
        Key::Char(c) => if c == 'q' {
            Some(Command::Quit)
        } else {
            None
        },
        Key::Other => None,
    }
}

} // verus!
