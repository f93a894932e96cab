use vstd::prelude::*;
use crate::player::Command;

verus! {

/// A key as the input layer reports it.
#[derive(Clone, Copy, Debug, PartialEq, Eq, Structural)]
pub enum Key {
    Char(char),
    Up,
    Down,
    Left,
    Right,
    Enter,
    Backspace,
    Tab,
    Other,
}

/// The command bound to a key press, if any.
pub open spec fn key_command(key: Key, shift: bool) -> Option<Command> {
    match key {
        Key::Char('q') => Some(Command::Quit),
        Key::Down => Some(Command::SelectNext),
        Key::Up => Some(Command::SelectPrevious),
        Key::Enter => if shift { Some(Command::QueueSelected) } else { Some(Command::PlaySelected) },
        Key::Char(' ') => Some(Command::TogglePause),
        Key::Char('=') => Some(Command::ToggleLoop),
        Key::Tab => Some(Command::ToggleShuffle),
        Key::Backspace => Some(Command::Skip),
        Key::Right => Some(Command::VolumeUp),
        Key::Left => Some(Command::VolumeDown),
        _ => None,
    }
}

/// Maps a key press, with whether shift was held, to its command.
pub fn command_for_key(key: Key, shift: bool) -> (r: Option<Command>)
    ensures
        r == key_command(key, shift),
{
    match key {
        Key::Char('q') => Some(Command::Quit),
        Key::Down => Some(Command::SelectNext),
        Key::Up => Some(Command::SelectPrevious),
        Key::Enter => if shift { Some(Command::QueueSelected) } else { Some(Command::PlaySelected) },
        Key::Char(' ') => Some(Command::TogglePause),
        Key::Char('=') => Some(Command::ToggleLoop),
        Key::Tab => Some(Command::ToggleShuffle),
        Key::Backspace => Some(Command::Skip),
        Key::Right => Some(Command::VolumeUp),
        Key::Left => Some(Command::VolumeDown),
        _ => None,
    }
}

} // verus!
