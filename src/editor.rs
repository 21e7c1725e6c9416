use vstd::prelude::*;
use crate::cursor::CursorController;
use crate::input::{
    command_of, is_arrow, letter_direction, special_direction, Command, Direction, KeyCode,
    KeyEvent,
};
use crate::output::Output;
use crate::rows::EditorRows;

verus! {

/// The viewer: a screen over a buffer, driven one key press at a time.
/// Reading keys and writing frames is left to the caller.
pub struct Editor {
    pub output: Output,
}

impl Editor {
    /// The cursor state after handling `key`, with `number_of_rows` rows.
    pub open spec fn after_key(c: CursorController, key: KeyEvent, number_of_rows: nat) -> CursorController {
        match command_of(key) {
            Command::Move(d) => c.moved(d, number_of_rows),
            _ => c,
        }
    }

    /// A viewer of `editor_rows` on a screen of `win_size.0` columns and
    /// `win_size.1` rows.
    pub fn new(win_size: (usize, usize), editor_rows: EditorRows) -> (e: Editor)
        requires
            win_size.0 >= 1,
            win_size.1 >= 1,
        ensures
            e.output.wf(),
            e.output.win_size == win_size,
            e.output.editor_contents@ == Seq::<char>::empty(),
            e.output.cursor_controller == CursorController::new_spec(win_size),
            e.output.editor_rows@ == editor_rows@,
    {
        Editor { output: Output::new(win_size, editor_rows) }
    }

    /// The direction of one of the letters h, j, k, l.
    pub fn ch_to_dir(ch: char) -> (d: Direction)
        requires
            letter_direction(ch) is Some,
        ensures
            letter_direction(ch) == Some(d),
    {
        match ch {
            'h' => Direction::Left,
            'j' => Direction::Down,
            'k' => Direction::Up,
            _ => Direction::Right,
        }
    }

    /// The direction of an arrow key.
    pub fn arrow_to_dir(key: KeyCode) -> (d: Direction)
        requires
            is_arrow(key),
        ensures
            special_direction(key) == Some(d),
    {
        match key {
            KeyCode::Up => Direction::Up,
            KeyCode::Down => Direction::Down,
            KeyCode::Left => Direction::Left,
            _ => Direction::Right,
        }
    }

    /// Handles one key press; false when it asks to quit.
    pub fn process_keypress(&mut self, key: KeyEvent) -> (keep_going: bool)
        requires
            old(self).output.wf(),
        ensures
            keep_going == !(command_of(key) is Quit),
            final(self).output.wf(),
            final(self).output.win_size == old(self).output.win_size,
            final(self).output.editor_rows@ == old(self).output.editor_rows@,
            final(self).output.editor_contents@ == old(self).output.editor_contents@,
            final(self).output.cursor_controller == Editor::after_key(
                old(self).output.cursor_controller,
                key,
                old(self).output.editor_rows@.len(),
            ),
    {
        match decode_key(key) {
            Command::Quit => false,
            Command::Move(dir) => {
                self.output.move_cursor(dir);
                true
            },
            Command::Noop => true,
        }
    }
}

/// Maps a key press to what it asks for; never fails.
pub fn decode_key(key: KeyEvent) -> (c: Command)
    ensures
        c == command_of(key),
{
    let m = key.modifiers;
    if !m.shift && m.control && !m.alt {
        if let KeyCode::Char('q') = key.code {
            return Command::Quit;
        }
    }
    if m.shift || m.control || m.alt {
        return Command::Noop;
    }
    match key.code {
        KeyCode::Char(ch) => {
            if ch == 'h' || ch == 'j' || ch == 'k' || ch == 'l' {
                Command::Move(Editor::ch_to_dir(ch))
            } else {
                Command::Noop
            }
        },
        KeyCode::Up | KeyCode::Down | KeyCode::Left | KeyCode::Right => Command::Move(
            Editor::arrow_to_dir(key.code),
        ),
        KeyCode::PageUp => Command::Move(Direction::TopScreen),
        KeyCode::PageDown => Command::Move(Direction::BottomScreen),
        KeyCode::Home => Command::Move(Direction::Home),
        KeyCode::End => Command::Move(Direction::End),
        KeyCode::Other => Command::Noop,
    }
}

} // verus!
