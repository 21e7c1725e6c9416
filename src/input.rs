use vstd::prelude::*;

verus! {

/// A cursor movement.
#[derive(Clone, Copy, Debug, PartialEq, Eq, Structural)]
pub enum Direction {
    Up,
    Down,
    Left,
    Right,
    TopScreen,
    BottomScreen,
    Home,
    End,
}

/// The key of a key press, as far as the viewer tells keys apart.
#[derive(Clone, Copy, Debug, PartialEq, Eq, Structural)]
pub enum KeyCode {
    Char(char),
    Up,
    Down,
    Left,
    Right,
    PageUp,
    PageDown,
    Home,
    End,
    Other,
}

/// The modifier keys held during a key press.
#[derive(Clone, Copy, Debug, PartialEq, Eq, Structural)]
pub struct KeyModifiers {
    pub shift: bool,
    pub control: bool,
    pub alt: bool,
}

/// One key press.
#[derive(Clone, Copy, Debug, PartialEq, Eq, Structural)]
pub struct KeyEvent {
    pub code: KeyCode,
    pub modifiers: KeyModifiers,
}

/// What a key press asks the viewer to do.
#[derive(Clone, Copy, Debug, PartialEq, Eq, Structural)]
pub enum Command {
    Move(Direction),
    Quit,
    Noop,
}

impl KeyModifiers {
    /// No modifier held.
    pub open spec fn is_none(self) -> bool {
        !self.shift && !self.control && !self.alt
    }

    /// Control held, and nothing else.
    pub open spec fn is_control_only(self) -> bool {
        !self.shift && self.control && !self.alt
    }
}

/// The direction bound to a letter key.
pub open spec fn letter_direction(ch: char) -> Option<Direction> {
    if ch == 'h' {
        Some(Direction::Left)
    } else if ch == 'j' {
        Some(Direction::Down)
    } else if ch == 'k' {
        Some(Direction::Up)
    } else if ch == 'l' {
        Some(Direction::Right)
    } else {
        None
    }
}

/// The direction bound to a key that is not a letter.
pub open spec fn special_direction(code: KeyCode) -> Option<Direction> {
    match code {
        KeyCode::Up => Some(Direction::Up),
        KeyCode::Down => Some(Direction::Down),
        KeyCode::Left => Some(Direction::Left),
        KeyCode::Right => Some(Direction::Right),
        KeyCode::PageUp => Some(Direction::TopScreen),
        KeyCode::PageDown => Some(Direction::BottomScreen),
        KeyCode::Home => Some(Direction::Home),
        KeyCode::End => Some(Direction::End),
        _ => None,
    }
}

/// The key map: Ctrl+q quits; h j k l, the arrows, PageUp, PageDown,
/// Home and End without modifiers move; every other key does nothing.
pub open spec fn command_of(key: KeyEvent) -> Command {
    if key.code == KeyCode::Char('q') && key.modifiers.is_control_only() {
        Command::Quit
    } else if !key.modifiers.is_none() {
        Command::Noop
    } else {
        match key.code {
            KeyCode::Char(ch) => match letter_direction(ch) {
                Some(d) => Command::Move(d),
                None => Command::Noop,
            },
            _ => match special_direction(key.code) {
                Some(d) => Command::Move(d),
                None => Command::Noop,
            },
        }
    }
}

pub open spec fn is_arrow(code: KeyCode) -> bool {
    code is Up || code is Down || code is Left || code is Right
}

} // verus!
