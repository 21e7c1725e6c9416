use vstd::prelude::*;
use crate::input::Direction;

verus! {

/// The cursor position and the first buffer row shown on screen.
#[derive(Clone, Copy, Debug, PartialEq, Eq, Structural)]
pub struct CursorController {
    pub cursor_x: usize,
    pub cursor_y: usize,
    pub screen_cols: usize,
    pub screen_rows: usize,
    pub row_offset: usize,
}

impl CursorController {
    /// The state after one movement, with `number_of_rows` rows in the buffer.
    pub open spec fn moved(self, dir: Direction, number_of_rows: nat) -> CursorController {
        match dir {
            Direction::Up => CursorController {
                cursor_y: if self.cursor_y == 0 { 0 } else { (self.cursor_y - 1) as usize },
                ..self
            },
            Direction::Down => if self.cursor_y < number_of_rows {
                CursorController { cursor_y: (self.cursor_y + 1) as usize, ..self }
            } else {
                self
            },
            Direction::Left => CursorController {
                cursor_x: if self.cursor_x == 0 { 0 } else { (self.cursor_x - 1) as usize },
                ..self
            },
            Direction::Right => CursorController {
                cursor_x: if self.cursor_x == usize::MAX { self.cursor_x } else { (self.cursor_x + 1) as usize },
                ..self
            },
            Direction::TopScreen => CursorController { cursor_y: 0, ..self },
            Direction::BottomScreen => CursorController {
                cursor_y: (self.screen_rows - 1) as usize,
                ..self
            },
            Direction::Home => CursorController { cursor_x: 0, ..self },
            Direction::End => CursorController {
                cursor_x: (self.screen_cols - 1) as usize,
                ..self
            },
        }
    }

    /// Whether a movement is possible: jumping to the last screen row or
    /// column needs a screen with at least one row or column.
    pub open spec fn can_move(self, dir: Direction) -> bool {
        &&& dir is BottomScreen ==> self.screen_rows >= 1
        &&& dir is End ==> self.screen_cols >= 1
    }

    /// The state after recomputing the row offset: first the window's top
    /// comes up to the cursor, then its bottom comes down to it.
    pub open spec fn scrolled(self) -> CursorController {
        let top = if self.cursor_y < self.row_offset { self.cursor_y } else { self.row_offset };
        let offset = if self.cursor_y >= top + self.screen_rows {
            self.cursor_y - (self.screen_rows - 1)
        } else {
            top as int
        };
        CursorController { row_offset: offset as usize, ..self }
    }

    /// The cursor's row is on screen.
    pub open spec fn in_view(self) -> bool {
        self.row_offset <= self.cursor_y < self.row_offset + self.screen_rows
    }

    /// The state after `k` downward movements.
    pub open spec fn moved_down_times(self, number_of_rows: nat, k: nat) -> CursorController
        decreases k,
    {
        if k == 0 {
            self
        } else {
            self.moved_down_times(number_of_rows, (k - 1) as nat).moved(
                Direction::Down,
                number_of_rows,
            )
        }
    }

    /// A cursor at the top left of a screen of `win_size.0` columns and
    /// `win_size.1` rows.
    pub open spec fn new_spec(win_size: (usize, usize)) -> CursorController {
        CursorController {
            cursor_x: 0,
            cursor_y: 0,
            screen_cols: win_size.0,
            screen_rows: win_size.1,
            row_offset: 0,
        }
    }

    pub fn new(win_size: (usize, usize)) -> (c: CursorController)
        ensures
            c == CursorController::new_spec(win_size),
    {
        CursorController {
            cursor_x: 0,
            cursor_y: 0,
            screen_cols: win_size.0,
            screen_rows: win_size.1,
            row_offset: 0,
        }
    }

    /// Brings the cursor's row into view.
    pub fn scroll(&mut self)
        requires
            old(self).screen_rows >= 1,
        ensures
            *final(self) == old(self).scrolled(),
            final(self).in_view(),
    {
        if self.cursor_y < self.row_offset {
            self.row_offset = self.cursor_y;
        }
        if self.cursor_y - self.row_offset >= self.screen_rows {
            self.row_offset = self.cursor_y - (self.screen_rows - 1);
        }
    }

    /// Moves the cursor one step, or to an edge of the screen; with
    /// `number_of_rows` rows in the buffer.
    pub fn move_cursor(&mut self, dir: Direction, number_of_rows: usize)
        requires
            old(self).can_move(dir),
        ensures
            *final(self) == old(self).moved(dir, number_of_rows as nat),
            dir is BottomScreen ==> final(self).cursor_y == old(self).screen_rows - 1,
            dir is Down ==> final(self).cursor_y == if old(self).cursor_y < number_of_rows {
                old(self).cursor_y + 1
            } else {
                old(self).cursor_y as int
            },
    {
        match dir {
            Direction::Up => {
                self.cursor_y = self.cursor_y.saturating_sub(1);
            },
            Direction::Down => {
                if self.cursor_y < number_of_rows {
                    self.cursor_y += 1;
                }
            },
            Direction::Left => {
                self.cursor_x = self.cursor_x.saturating_sub(1);
            },
            Direction::Right => {
                self.cursor_x = self.cursor_x.saturating_add(1);
            },
            Direction::TopScreen => {
                self.cursor_y = 0;
            },
            Direction::BottomScreen => {
                self.cursor_y = self.screen_rows - 1;
            },
            Direction::Home => {
                self.cursor_x = 0;
            },
            Direction::End => {
                self.cursor_x = self.screen_cols - 1;
            },
        }
    }
}

/// Moving down never takes the cursor past row `number_of_rows`: from a
/// cursor at or above that row, `k` downward movements leave it at
/// `min(cursor_y + k, number_of_rows)`, and with an empty buffer the state
/// does not change at all.
pub proof fn lemma_move_down_stays_within_rows(c: CursorController, number_of_rows: nat, k: nat)
    requires
        c.cursor_y <= number_of_rows <= usize::MAX,
    ensures
        c.moved_down_times(number_of_rows, k).cursor_y <= number_of_rows,
        c.moved_down_times(number_of_rows, k).cursor_y == if c.cursor_y + k <= number_of_rows {
            c.cursor_y + k
        } else {
            number_of_rows as int
        },
        number_of_rows == 0 ==> c.moved_down_times(number_of_rows, k) == c,
    decreases k,
{
    if k > 0 {
        lemma_move_down_stays_within_rows(c, number_of_rows, (k - 1) as nat);
    }
}

/// Jumping to the top and then scrolling always shows the buffer from its
/// first row.
pub proof fn lemma_jump_top_then_scroll(c: CursorController, number_of_rows: nat)
    requires
        c.screen_rows >= 1,
    ensures
        c.moved(Direction::TopScreen, number_of_rows).scrolled().row_offset == 0,
        c.moved(Direction::TopScreen, number_of_rows).scrolled().in_view(),
{
}

} // verus!
