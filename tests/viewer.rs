use baby_editor::contents::EditorContents;
use baby_editor::cursor::CursorController;
use baby_editor::editor::{decode_key, Editor};
use baby_editor::input::{Command, Direction, KeyCode, KeyEvent, KeyModifiers};
use baby_editor::output::Output;
use baby_editor::rows::EditorRows;

const NONE: KeyModifiers = KeyModifiers { shift: false, control: false, alt: false };
const CTRL: KeyModifiers = KeyModifiers { shift: false, control: true, alt: false };

fn key(code: KeyCode) -> KeyEvent {
    KeyEvent { code, modifiers: NONE }
}

fn cursor(cursor_x: usize, cursor_y: usize, row_offset: usize, cols: usize, rows: usize) -> CursorController {
    CursorController { cursor_x, cursor_y, screen_cols: cols, screen_rows: rows, row_offset }
}

fn drawn(rows: EditorRows, cols: usize, screen_rows: usize, row_offset: usize) -> String {
    let mut out = Output::new((cols, screen_rows), rows);
    out.cursor_controller.row_offset = row_offset;
    out.draw_rows();
    out.editor_contents.as_str().to_string()
}

fn screen_lines(frame: &str) -> Vec<String> {
    frame.split("\r\n").map(|l| l.to_string()).collect()
}

#[test]
fn load_keeps_empty_lines() {
    let rows = EditorRows::from_text("abc\n\nde");
    assert_eq!(rows.number_of_rows(), 3);
    assert_eq!(rows.get_row(0), "abc");
    assert_eq!(rows.get_row(1), "");
    assert_eq!(rows.get_row(2), "de");
}

#[test]
fn load_nothing_gives_no_rows() {
    assert_eq!(EditorRows::new().number_of_rows(), 0);
    assert_eq!(EditorRows::from_text("").number_of_rows(), 0);
}

#[test]
fn load_final_line_feed_adds_no_row() {
    let rows = EditorRows::from_text("one\ntwo\n");
    assert_eq!(rows.number_of_rows(), 2);
    assert_eq!(rows.get_row(1), "two");
    let rows = EditorRows::from_text("\n");
    assert_eq!(rows.number_of_rows(), 1);
    assert_eq!(rows.get_row(0), "");
}

#[test]
fn load_strips_carriage_returns_of_line_ends() {
    let rows = EditorRows::from_text("a\r\nb\r\r\nc\rd\r");
    assert_eq!(rows.number_of_rows(), 3);
    assert_eq!(rows.get_row(0), "a");
    assert_eq!(rows.get_row(1), "b\r");
    assert_eq!(rows.get_row(2), "c\rd\r");
}

#[test]
fn load_keeps_non_ascii_text() {
    let rows = EditorRows::from_text("héllo\n日本");
    assert_eq!(rows.number_of_rows(), 2);
    assert_eq!(rows.get_row(0), "héllo");
    assert_eq!(rows.get_row(1), "日本");
}

#[test]
fn move_down_stops_at_row_count() {
    let mut c = cursor(0, 0, 0, 80, 24);
    for _ in 0..10 {
        c.move_cursor(Direction::Down, 4);
        assert!(c.cursor_y <= 4);
    }
    assert_eq!(c.cursor_y, 4);
}

#[test]
fn move_down_on_empty_buffer_does_nothing() {
    let mut c = cursor(0, 0, 0, 80, 24);
    c.move_cursor(Direction::Down, 0);
    assert_eq!(c, cursor(0, 0, 0, 80, 24));
}

#[test]
fn moves_saturate_at_zero() {
    let mut c = cursor(0, 0, 0, 80, 24);
    c.move_cursor(Direction::Up, 5);
    c.move_cursor(Direction::Left, 5);
    assert_eq!((c.cursor_x, c.cursor_y), (0, 0));
    c.move_cursor(Direction::Right, 5);
    c.move_cursor(Direction::Right, 5);
    assert_eq!(c.cursor_x, 2);
    let mut c = cursor(usize::MAX, 0, 0, 80, 24);
    c.move_cursor(Direction::Right, 5);
    assert_eq!(c.cursor_x, usize::MAX);
}

#[test]
fn jumps_use_the_screen_size() {
    let mut c = cursor(7, 9, 3, 80, 24);
    c.move_cursor(Direction::Home, 100);
    assert_eq!(c.cursor_x, 0);
    c.move_cursor(Direction::End, 100);
    assert_eq!(c.cursor_x, 79);
    c.move_cursor(Direction::TopScreen, 100);
    assert_eq!(c.cursor_y, 0);
}

#[test]
fn jump_bottom_ignores_row_count() {
    for n in [0usize, 1, 5, 1000] {
        let mut c = cursor(0, 2, 0, 80, 24);
        c.move_cursor(Direction::BottomScreen, n);
        assert_eq!(c.cursor_y, 23);
    }
}

#[test]
fn scroll_keeps_cursor_in_view() {
    for (y, off, rows) in [(0usize, 0usize, 1usize), (50, 0, 10), (3, 40, 10), (9, 0, 10), (10, 0, 10), (7, 7, 1)] {
        let mut c = cursor(0, y, off, 80, rows);
        c.scroll();
        assert!(c.row_offset <= c.cursor_y && c.cursor_y < c.row_offset + rows);
    }
    let mut c = cursor(0, 50, 0, 80, 10);
    c.scroll();
    assert_eq!(c.row_offset, 41);
    let mut c = cursor(0, 3, 40, 80, 10);
    c.scroll();
    assert_eq!(c.row_offset, 3);
}

#[test]
fn jump_top_then_scroll_shows_first_row() {
    let mut c = cursor(0, 30, 25, 80, 10);
    c.move_cursor(Direction::TopScreen, 100);
    c.scroll();
    assert_eq!(c.row_offset, 0);
}

#[test]
fn long_row_is_cut_to_screen_width() {
    let rows = EditorRows::from_text("abcdefghijklmno");
    let frame = drawn(rows, 10, 1, 0);
    assert_eq!(frame, "abcdefghij\x1b[K");
}

#[test]
fn greeting_only_on_third_of_screen() {
    let frame = drawn(EditorRows::new(), 80, 9, 0);
    let lines = screen_lines(&frame);
    assert_eq!(lines.len(), 9);
    for (j, line) in lines.iter().enumerate() {
        if j == 3 {
            let pad = (80 - 24) / 2;
            let expected = format!("~{}Dana's Baby Editor 0.0.1\x1b[K", " ".repeat(pad - 1));
            assert_eq!(line, &expected);
        } else {
            assert_eq!(line, "~\x1b[K");
        }
    }
}

#[test]
fn greeting_cut_on_narrow_screen() {
    let frame = drawn(EditorRows::new(), 10, 3, 0);
    assert_eq!(frame, "~\x1b[K\r\nDana's Bab\x1b[K\r\n~\x1b[K");
    let frame = drawn(EditorRows::new(), 25, 1, 0);
    assert_eq!(frame, "Dana's Baby Editor 0.0.1\x1b[K");
}

#[test]
fn rows_past_the_end_show_a_marker() {
    let rows = EditorRows::from_text("x\ny\nz");
    let frame = drawn(rows, 5, 4, 1);
    assert_eq!(frame, "y\x1b[K\r\nz\x1b[K\r\n~\x1b[K\r\n~\x1b[K");
}

#[test]
fn whole_frame_is_exact() {
    let mut out = Output::new((3, 2), EditorRows::from_text("abcd"));
    out.move_cursor(Direction::Right);
    out.move_cursor(Direction::Right);
    out.refresh_screen();
    assert_eq!(
        out.editor_contents.as_str(),
        "\x1b[?25l\x1b[1;1Habc\x1b[K\r\n~\x1b[K\x1b[1;3H\x1b[?25h"
    );
}

#[test]
fn frame_places_cursor_relative_to_offset() {
    let text: Vec<String> = (0..30).map(|i| i.to_string()).collect();
    let mut out = Output::new((4, 5), EditorRows::from_text(&text.join("\n")));
    for _ in 0..12 {
        out.move_cursor(Direction::Down);
    }
    out.refresh_screen();
    assert_eq!(out.cursor_controller.row_offset, 8);
    let frame = out.editor_contents.as_str().to_string();
    assert!(frame.starts_with("\x1b[?25l\x1b[1;1H8\x1b[K\r\n9\x1b[K\r\n10\x1b[K"));
    assert!(frame.ends_with("12\x1b[K\x1b[5;1H\x1b[?25h"));
}

#[test]
fn far_right_cursor_goes_to_last_terminal_column() {
    let mut out = Output::new((80, 2), EditorRows::new());
    out.cursor_controller.cursor_x = 70000;
    out.refresh_screen();
    assert!(out.editor_contents.as_str().ends_with("\x1b[1;65535H\x1b[?25h"));
}

#[test]
fn contents_gather_and_clear() {
    let mut c = EditorContents::new();
    c.push('a');
    c.push_str("bc");
    assert_eq!(c.as_str(), "abc");
    c.clear();
    assert_eq!(c.as_str(), "");
}

#[test]
fn key_map() {
    assert_eq!(decode_key(KeyEvent { code: KeyCode::Char('q'), modifiers: CTRL }), Command::Quit);
    assert_eq!(decode_key(key(KeyCode::Char('q'))), Command::Noop);
    assert_eq!(decode_key(key(KeyCode::Char('h'))), Command::Move(Direction::Left));
    assert_eq!(decode_key(key(KeyCode::Char('j'))), Command::Move(Direction::Down));
    assert_eq!(decode_key(key(KeyCode::Char('k'))), Command::Move(Direction::Up));
    assert_eq!(decode_key(key(KeyCode::Char('l'))), Command::Move(Direction::Right));
    assert_eq!(decode_key(key(KeyCode::Left)), Command::Move(Direction::Left));
    assert_eq!(decode_key(key(KeyCode::Down)), Command::Move(Direction::Down));
    assert_eq!(decode_key(key(KeyCode::Up)), Command::Move(Direction::Up));
    assert_eq!(decode_key(key(KeyCode::Right)), Command::Move(Direction::Right));
    assert_eq!(decode_key(key(KeyCode::PageUp)), Command::Move(Direction::TopScreen));
    assert_eq!(decode_key(key(KeyCode::PageDown)), Command::Move(Direction::BottomScreen));
    assert_eq!(decode_key(key(KeyCode::Home)), Command::Move(Direction::Home));
    assert_eq!(decode_key(key(KeyCode::End)), Command::Move(Direction::End));
    assert_eq!(decode_key(key(KeyCode::Other)), Command::Noop);
    assert_eq!(decode_key(key(KeyCode::Char('x'))), Command::Noop);
    let shifted = KeyModifiers { shift: true, control: false, alt: false };
    assert_eq!(decode_key(KeyEvent { code: KeyCode::Char('j'), modifiers: shifted }), Command::Noop);
    let ctrl_alt = KeyModifiers { shift: false, control: true, alt: true };
    assert_eq!(decode_key(KeyEvent { code: KeyCode::Char('q'), modifiers: ctrl_alt }), Command::Noop);
    assert_eq!(decode_key(KeyEvent { code: KeyCode::Down, modifiers: CTRL }), Command::Noop);
}

#[test]
fn letter_and_arrow_directions() {
    assert_eq!(Editor::ch_to_dir('h'), Direction::Left);
    assert_eq!(Editor::ch_to_dir('j'), Direction::Down);
    assert_eq!(Editor::ch_to_dir('k'), Direction::Up);
    assert_eq!(Editor::ch_to_dir('l'), Direction::Right);
    assert_eq!(Editor::arrow_to_dir(KeyCode::Up), Direction::Up);
    assert_eq!(Editor::arrow_to_dir(KeyCode::Down), Direction::Down);
    assert_eq!(Editor::arrow_to_dir(KeyCode::Left), Direction::Left);
    assert_eq!(Editor::arrow_to_dir(KeyCode::Right), Direction::Right);
}

#[test]
fn quit_key_stops_the_viewer() {
    let mut e = Editor::new((80, 24), EditorRows::from_text("a\nb"));
    assert!(e.process_keypress(key(KeyCode::Char('j'))));
    assert_eq!(e.output.cursor_controller.cursor_y, 1);
    assert!(e.process_keypress(key(KeyCode::Char('z'))));
    assert_eq!(e.output.cursor_controller.cursor_y, 1);
    assert!(!e.process_keypress(KeyEvent { code: KeyCode::Char('q'), modifiers: CTRL }));
}

#[test]
fn empty_viewer_never_scrolls_on_down() {
    let mut e = Editor::new((80, 24), EditorRows::new());
    for _ in 0..3 {
        assert!(e.process_keypress(key(KeyCode::Char('j'))));
        e.output.refresh_screen();
        assert_eq!(e.output.cursor_controller.cursor_y, 0);
        assert_eq!(e.output.cursor_controller.row_offset, 0);
        e.output.editor_contents.clear();
    }
}
