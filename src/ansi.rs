use vstd::prelude::*;

verus! {

/// A control sequence: ESC '[' followed by `tail`.
pub open spec fn csi(tail: Seq<char>) -> Seq<char> {
    seq!['\x1b', '['] + tail
}

/// The decimal digit of `d`, for `d < 10`.
pub open spec fn digit(d: nat) -> char {
    seq!['0', '1', '2', '3', '4', '5', '6', '7', '8', '9'][d as int]
}

/// `n` in decimal, without leading zeros.
pub open spec fn decimal(n: nat) -> Seq<char>
    decreases n,
{
    if n < 10 {
        seq![digit(n)]
    } else {
        decimal(n / 10).push(digit(n % 10))
    }
}

/// Moves the terminal cursor to column `col` and row `row`, both counted from 0.
pub open spec fn move_to_seq(col: nat, row: nat) -> Seq<char> {
    csi(decimal(row + 1) + seq![';'] + decimal(col + 1) + seq!['H'])
}

/// Hides the terminal cursor.
pub open spec fn hide_cursor_seq() -> Seq<char> {
    csi(seq!['?', '2', '5', 'l'])
}

/// Shows the terminal cursor.
pub open spec fn show_cursor_seq() -> Seq<char> {
    csi(seq!['?', '2', '5', 'h'])
}

/// Clears the line from the cursor to its end.
pub open spec fn clear_line_seq() -> Seq<char> {
    csi(seq!['K'])
}

/// Relies on crossterm's `cursor::MoveTo` command, whose ANSI form is
/// ESC [ (row + 1) ; (col + 1) H in decimal; it adds 1 to each coordinate,
/// so neither may be `u16::MAX`.
#[verifier::external_body]
pub(crate) fn move_to(col: u16, row: u16) -> (r: String)
    requires
        col < u16::MAX,
        row < u16::MAX,
    ensures
        r@ == move_to_seq(col as nat, row as nat),
{
    let mut s = String::new();
    crossterm::Command::write_ansi(&crossterm::cursor::MoveTo(col, row), &mut s).unwrap();
    s
}

/// Relies on crossterm's `cursor::Hide` command, whose ANSI form is ESC [ ?25l.
#[verifier::external_body]
pub(crate) fn hide_cursor() -> (r: String)
    ensures
        r@ == hide_cursor_seq(),
{
    let mut s = String::new();
    crossterm::Command::write_ansi(&crossterm::cursor::Hide, &mut s).unwrap();
    s
}

/// Relies on crossterm's `cursor::Show` command, whose ANSI form is ESC [ ?25h.
#[verifier::external_body]
pub(crate) fn show_cursor() -> (r: String)
    ensures
        r@ == show_cursor_seq(),
{
    let mut s = String::new();
    crossterm::Command::write_ansi(&crossterm::cursor::Show, &mut s).unwrap();
    s
}

/// Relies on crossterm's `terminal::Clear(ClearType::UntilNewLine)` command,
/// whose ANSI form is ESC [ K.
#[verifier::external_body]
pub(crate) fn clear_line() -> (r: String)
    ensures
        r@ == clear_line_seq(),
{
    let mut s = String::new();
    crossterm::Command::write_ansi(
        &crossterm::terminal::Clear(crossterm::terminal::ClearType::UntilNewLine),
        &mut s,
    ).unwrap();
    s
}

} // verus!
