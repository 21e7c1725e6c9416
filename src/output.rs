use vstd::prelude::*;
use crate::ansi::{
    clear_line, clear_line_seq, hide_cursor, hide_cursor_seq, move_to, move_to_seq, show_cursor,
    show_cursor_seq,
};
use crate::contents::EditorContents;
use crate::cursor::CursorController;
use crate::input::Direction;
use crate::rows::EditorRows;

verus! {

/// The largest coordinate handed to the terminal: a column or row past it
/// is shown there.
pub const MAX_TERMINAL_COORD: usize = 65534;

/// The text shown on the empty screen.
pub open spec fn greeting() -> Seq<char> {
    "Dana's Baby Editor 0.0.1"@
}

/// `n` spaces.
pub open spec fn spaces(n: nat) -> Seq<char> {
    Seq::new(n, |_i: int| ' ')
}

/// At most the first `n` characters of `s`.
pub open spec fn truncated(s: Seq<char>, n: nat) -> Seq<char> {
    if s.len() > n {
        s.take(n as int)
    } else {
        s
    }
}

/// The greeting line of a screen `cols` wide: the greeting, cut to the
/// width, centred by spaces of which the first is a '~'.
pub open spec fn welcome_line(cols: nat) -> Seq<char> {
    let shown = truncated(greeting(), cols);
    let padding = (cols - shown.len()) / 2;
    if padding == 0 {
        shown
    } else {
        seq!['~'] + spaces((padding - 1) as nat) + shown
    }
}

/// What screen row `j` shows, for a buffer `rows` seen from row `row_offset`
/// on a screen of `cols` columns and `screen_rows` rows.
pub open spec fn row_text(
    rows: Seq<Seq<char>>,
    row_offset: nat,
    cols: nat,
    screen_rows: nat,
    j: nat,
) -> Seq<char> {
    if j + row_offset >= rows.len() {
        if rows.len() == 0 && j == screen_rows / 3 {
            welcome_line(cols)
        } else {
            seq!['~']
        }
    } else {
        truncated(rows[(j + row_offset) as int], cols)
    }
}

/// Screen row `j` as drawn: its text, a clear to the end of the line, and
/// a line break unless it is the last row.
pub open spec fn row_output(
    rows: Seq<Seq<char>>,
    row_offset: nat,
    cols: nat,
    screen_rows: nat,
    j: nat,
) -> Seq<char> {
    row_text(rows, row_offset, cols, screen_rows, j) + clear_line_seq() + if j + 1 < screen_rows {
        seq!['\r', '\n']
    } else {
        Seq::empty()
    }
}

/// The first `k` screen rows as drawn.
pub open spec fn drawn_rows(
    rows: Seq<Seq<char>>,
    row_offset: nat,
    cols: nat,
    screen_rows: nat,
    k: nat,
) -> Seq<char>
    decreases k,
{
    if k == 0 {
        Seq::empty()
    } else {
        drawn_rows(rows, row_offset, cols, screen_rows, (k - 1) as nat) + row_output(
            rows,
            row_offset,
            cols,
            screen_rows,
            (k - 1) as nat,
        )
    }
}

/// A terminal coordinate: `n`, or the largest one the terminal takes.
pub open spec fn terminal_coord(n: nat) -> nat {
    if n > MAX_TERMINAL_COORD {
        MAX_TERMINAL_COORD as nat
    } else {
        n
    }
}

/// One whole frame for a scrolled cursor `c`: hide the cursor, go to the
/// top left, draw every row, place the cursor, show it again.
pub open spec fn frame(rows: Seq<Seq<char>>, c: CursorController) -> Seq<char> {
    hide_cursor_seq() + move_to_seq(0, 0) + drawn_rows(
        rows,
        c.row_offset as nat,
        c.screen_cols as nat,
        c.screen_rows as nat,
        c.screen_rows as nat,
    ) + move_to_seq(
        terminal_coord(c.cursor_x as nat),
        terminal_coord((c.cursor_y - c.row_offset) as nat),
    ) + show_cursor_seq()
}

/// The screen: its size, the frame being gathered, the cursor and the rows.
pub struct Output {
    pub win_size: (usize, usize),
    pub editor_contents: EditorContents,
    pub cursor_controller: CursorController,
    pub editor_rows: EditorRows,
}

/// Appends the greeting line for a screen `screen_cols` wide.
fn push_welcome(contents: &mut EditorContents, screen_cols: usize)
    ensures
        final(contents)@ == old(contents)@ + welcome_line(screen_cols as nat),
{
    let text = "Dana's Baby Editor 0.0.1";
    let glen = text.unicode_len();
    let shown_len = if glen > screen_cols {
        screen_cols
    } else {
        glen
    };
    let shown = text.substring_char(0, shown_len);
    assert(shown@ =~= truncated(greeting(), screen_cols as nat));
    let ghost start = contents@;
    let mut padding = (screen_cols - shown_len) / 2;
    if padding != 0 {
        contents.push('~');
        padding -= 1;
    }
    let ghost lead = contents@;
    let mut k: usize = 0;
    while k < padding
        invariant
            k <= padding,
            contents@ == lead + spaces(k as nat),
        decreases padding - k,
    {
        contents.push(' ');
        k += 1;
        assert(contents@ =~= lead + spaces(k as nat));
    }
    contents.push_str(shown);
    assert(contents@ =~= start + welcome_line(screen_cols as nat));
}

impl Output {
    /// The screen has a row and a column, and the cursor knows its size.
    pub open spec fn wf(self) -> bool {
        &&& self.win_size.0 >= 1
        &&& self.win_size.1 >= 1
        &&& self.cursor_controller.screen_cols == self.win_size.0
        &&& self.cursor_controller.screen_rows == self.win_size.1
    }

    /// A screen of `win_size.0` columns and `win_size.1` rows over `editor_rows`,
    /// with the cursor at the top left and nothing gathered yet.
    pub fn new(win_size: (usize, usize), editor_rows: EditorRows) -> (o: Output)
        requires
            win_size.0 >= 1,
            win_size.1 >= 1,
        ensures
            o.wf(),
            o.win_size == win_size,
            o.editor_contents@ == Seq::<char>::empty(),
            o.cursor_controller == CursorController::new_spec(win_size),
            o.editor_rows@ == editor_rows@,
    {
        Output {
            win_size,
            editor_contents: EditorContents::new(),
            cursor_controller: CursorController::new(win_size),
            editor_rows,
        }
    }

    /// Appends every screen row to the gathered frame.
    pub fn draw_rows(&mut self)
        requires
            old(self).wf(),
        ensures
            final(self).win_size == old(self).win_size,
            final(self).cursor_controller == old(self).cursor_controller,
            final(self).editor_rows@ == old(self).editor_rows@,
            final(self).editor_contents@ == old(self).editor_contents@ + drawn_rows(
                old(self).editor_rows@,
                old(self).cursor_controller.row_offset as nat,
                old(self).win_size.0 as nat,
                old(self).win_size.1 as nat,
                old(self).win_size.1 as nat,
            ),
    {
        let screen_rows = self.win_size.1;
        let screen_cols = self.win_size.0;
        let nrows = self.editor_rows.number_of_rows();
        let ghost rows = self.editor_rows@;
        let ghost offset = self.cursor_controller.row_offset as nat;
        let ghost start = self.editor_contents@;
        let mut j: usize = 0;
        while j < screen_rows
            invariant
                j <= screen_rows,
                screen_rows == self.win_size.1,
                screen_cols == self.win_size.0,
                nrows == rows.len(),
                self.win_size == old(self).win_size,
                self.cursor_controller == old(self).cursor_controller,
                self.editor_rows@ == rows,
                rows == old(self).editor_rows@,
                offset == old(self).cursor_controller.row_offset,
                start == old(self).editor_contents@,
                self.editor_contents@ == start + drawn_rows(
                    rows,
                    offset,
                    screen_cols as nat,
                    screen_rows as nat,
                    j as nat,
                ),
            decreases screen_rows - j,
        {
            let ghost before = self.editor_contents@;
            if j >= nrows || self.cursor_controller.row_offset >= nrows - j {
                if nrows == 0 && j == screen_rows / 3 {
                    push_welcome(&mut self.editor_contents, screen_cols);
                } else {
                    self.editor_contents.push('~');
                }
            } else {
                let buffer_row = j + self.cursor_controller.row_offset;
                let row = self.editor_rows.get_row(buffer_row);
                let row_len = row.unicode_len();
                let len = if row_len < screen_cols {
                    row_len
                } else {
                    screen_cols
                };
                let shown = row.substring_char(0, len);
                assert(shown@ =~= truncated(rows[buffer_row as int], screen_cols as nat));
                self.editor_contents.push_str(shown);
            }
            assert(self.editor_contents@ == before + row_text(
                rows,
                offset,
                screen_cols as nat,
                screen_rows as nat,
                j as nat,
            ));
            let clear = clear_line();
            self.editor_contents.push_str(clear.as_str());
            if j < screen_rows - 1 {
                self.editor_contents.push('\r');
                self.editor_contents.push('\n');
            }
            assert(self.editor_contents@ =~= before + row_output(
                rows,
                offset,
                screen_cols as nat,
                screen_rows as nat,
                j as nat,
            ));
            j += 1;
        }
    }

    /// Moves the cursor; see `CursorController::move_cursor`.
    pub fn move_cursor(&mut self, dir: Direction)
        requires
            old(self).wf(),
        ensures
            final(self).wf(),
            final(self).win_size == old(self).win_size,
            final(self).editor_contents@ == old(self).editor_contents@,
            final(self).editor_rows@ == old(self).editor_rows@,
            final(self).cursor_controller == old(self).cursor_controller.moved(
                dir,
                old(self).editor_rows@.len(),
            ),
    {
        let n = self.editor_rows.number_of_rows();
        self.cursor_controller.move_cursor(dir, n);
    }

    /// Scrolls the cursor into view and gathers one whole frame.
    pub fn refresh_screen(&mut self)
        requires
            old(self).wf(),
        ensures
            final(self).wf(),
            final(self).win_size == old(self).win_size,
            final(self).editor_rows@ == old(self).editor_rows@,
            final(self).cursor_controller == old(self).cursor_controller.scrolled(),
            final(self).cursor_controller.in_view(),
            final(self).editor_contents@ == old(self).editor_contents@ + frame(
                old(self).editor_rows@,
                final(self).cursor_controller,
            ),
    {
        self.cursor_controller.scroll();
        let ghost start = self.editor_contents@;
        let hide = hide_cursor();
        self.editor_contents.push_str(hide.as_str());
        let home = move_to(0, 0);
        self.editor_contents.push_str(home.as_str());
        self.draw_rows();
        let x = self.cursor_controller.cursor_x;
        let y = self.cursor_controller.cursor_y - self.cursor_controller.row_offset;
        let col: u16 = if x > MAX_TERMINAL_COORD {
            MAX_TERMINAL_COORD as u16
        } else {
            x as u16
        };
        let row: u16 = if y > MAX_TERMINAL_COORD {
            MAX_TERMINAL_COORD as u16
        } else {
            y as u16
        };
        let place = move_to(col, row);
        self.editor_contents.push_str(place.as_str());
        let show = show_cursor();
        self.editor_contents.push_str(show.as_str());
        assert(self.editor_contents@ =~= start + frame(
            self.editor_rows@,
            self.cursor_controller,
        ));
    }
}

} // verus!
