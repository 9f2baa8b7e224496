//! Key presses and the commands that they stand for.

use vstd::prelude::*;

verus! {

/// A key of the keyboard, as far as the pager tells keys apart.
#[derive(Clone, Copy, Debug, PartialEq, Eq)]
pub enum Key {
    /// A key that types the given character.
    Char(char),
    Esc,
    Home,
    End,
    PageUp,
    PageDown,
    /// Any other key.
    Other,
}

/// One key press: the key, and whether Control was held down with it.
#[derive(Clone, Copy, Debug, PartialEq, Eq)]
pub struct KeyEvent {
    pub key: Key,
    pub ctrl: bool,
}

/// What the pager can be told to do.
#[derive(Clone, Copy, Debug, PartialEq, Eq)]
pub enum Command {
    Quit,
    CursorLeft,
    CursorRight,
    CursorUp,
    CursorDown,
    WordForward,
    WordBack,
    LineHead,
    LineEnd,
    BufferTop,
    BufferBottom,
    ScrollLineDown,
    ScrollLineUp,
    ScrollHalfPageDown,
    ScrollHalfPageUp,
    ScrollPageDown,
    ScrollPageUp,
}

impl Command {
    /// Whether the command moves the viewport and leaves the cursor alone.
    pub open spec fn is_scroll(self) -> bool {
        match self {
            Command::ScrollLineDown
            | Command::ScrollLineUp
            | Command::ScrollHalfPageDown
            | Command::ScrollHalfPageUp
            | Command::ScrollPageDown
            | Command::ScrollPageUp => true,
            _ => false,
        }
    }

    /// Whether the command places the cursor; the viewport then follows it.
    pub open spec fn is_cursor_move(self) -> bool {
        self != Command::Quit && !self.is_scroll()
    }
}

/// The command bound to the character `c` typed without Control.
pub open spec fn plain_binding(c: char) -> Option<Command> {
    if c == 'q' {
        Some(Command::Quit)
    } else if c == 'h' {
        Some(Command::CursorLeft)
    } else if c == 'j' {
        Some(Command::CursorDown)
    } else if c == 'k' {
        Some(Command::CursorUp)
    } else if c == 'l' {
        Some(Command::CursorRight)
    } else if c == 'w' {
        Some(Command::WordForward)
    } else if c == 'b' {
        Some(Command::WordBack)
    } else if c == '^' {
        Some(Command::LineHead)
    } else if c == '$' {
        Some(Command::LineEnd)
    } else if c == 'g' {
        Some(Command::BufferTop)
    } else if c == 'G' {
        Some(Command::BufferBottom)
    } else {
        None
    }
}

/// The command bound to the character `c` typed with Control held down:
/// `e`, `y`, `d`, `u`, `f` and `b` scroll, `g` and `G` are bound to nothing,
/// and every other character means what it means without Control.
pub open spec fn ctrl_binding(c: char) -> Option<Command> {
    if c == 'e' {
        Some(Command::ScrollLineDown)
    } else if c == 'y' {
        Some(Command::ScrollLineUp)
    } else if c == 'd' {
        Some(Command::ScrollHalfPageDown)
    } else if c == 'u' {
        Some(Command::ScrollHalfPageUp)
    } else if c == 'f' {
        Some(Command::ScrollPageDown)
    } else if c == 'b' {
        Some(Command::ScrollPageUp)
    } else if c == 'g' || c == 'G' {
        None
    } else {
        plain_binding(c)
    }
}

/// The key table: the command that a key press stands for, or `None` for a
/// key press that is bound to nothing.
pub open spec fn binding(event: KeyEvent) -> Option<Command> {
    match event.key {
        Key::Char(c) => if event.ctrl {
            ctrl_binding(c)
        } else {
            plain_binding(c)
        },
        Key::Esc => Some(Command::Quit),
        Key::Home => Some(Command::BufferTop),
        Key::End => Some(Command::BufferBottom),
        Key::PageUp => Some(Command::ScrollPageUp),
        Key::PageDown => Some(Command::ScrollPageDown),
        Key::Other => None,
    }
}

/// Looks a key press up in the key table.
pub fn command_for(event: &KeyEvent) -> (command: Option<Command>)
    ensures
        command == binding(*event),
{
    match event.key {
        Key::Char(c) => {
            let ctrl = event.ctrl;
            match c {
                'q' => Some(Command::Quit),
                'h' => Some(Command::CursorLeft),
                'j' => Some(Command::CursorDown),
                'k' => Some(Command::CursorUp),
                'l' => Some(Command::CursorRight),
                'w' => Some(Command::WordForward),
                '^' => Some(Command::LineHead),
                '$' => Some(Command::LineEnd),
                'b' => if ctrl {
                    Some(Command::ScrollPageUp)
                } else {
                    Some(Command::WordBack)
                },
                'g' => if ctrl {
                    None
                } else {
                    Some(Command::BufferTop)
                },
                'G' => if ctrl {
                    None
                } else {
                    Some(Command::BufferBottom)
                },
                'e' => if ctrl {
                    Some(Command::ScrollLineDown)
                } else {
                    None
                },
                'y' => if ctrl {
                    Some(Command::ScrollLineUp)
                } else {
                    None
                },
                'd' => if ctrl {
                    Some(Command::ScrollHalfPageDown)
                } else {
                    None
                },
                'u' => if ctrl {
                    Some(Command::ScrollHalfPageUp)
                } else {
                    None
                },
                'f' => if ctrl {
                    Some(Command::ScrollPageDown)
                } else {
                    None
                },
                _ => None,
            }
        },
        Key::Esc => Some(Command::Quit),
        Key::Home => Some(Command::BufferTop),
        Key::End => Some(Command::BufferBottom),
        Key::PageUp => Some(Command::ScrollPageUp),
        Key::PageDown => Some(Command::ScrollPageDown),
        Key::Other => None,
    }
}

} // verus!
