use rustitor::editor::{binding, Action, CursorDir, Editor, Outcome};
use rustitor::input::InputSeq;

const T0: u128 = 1_000_000_000_000;

fn editor_with(text: &str) -> Editor {
    let mut editor = Editor::new(Some((80, 24)), T0);
    editor.open_file("notes.txt", text);
    editor
}

fn rows_of(editor: &Editor) -> Vec<String> {
    let buffer = editor.buffer();
    let mut lines = Vec::new();
    for i in 0..buffer.len() {
        lines.push(buffer.row(i).text());
    }
    lines
}

fn go_to(editor: &mut Editor, cx: usize, cy: usize) {
    editor.process_keypress(InputSeq::HomeKey, T0);
    while editor.cursor().1 > 0 {
        editor.move_cursor(CursorDir::Up);
    }
    editor.process_keypress(InputSeq::HomeKey, T0);
    for _ in 0..cy {
        editor.move_cursor(CursorDir::Down);
    }
    for _ in 0..cx {
        editor.move_cursor(CursorDir::Right);
    }
    assert_eq!(editor.cursor(), (cx, cy));
}

fn press(editor: &mut Editor, seq: InputSeq) -> Outcome {
    editor.process_keypress(seq, T0)
}

fn is_continue(outcome: &Outcome) -> bool {
    matches!(outcome, Outcome::Continue)
}

fn is_quit(outcome: &Outcome) -> bool {
    matches!(outcome, Outcome::Quit)
}

#[test]
fn new_editor_is_empty() {
    let editor = Editor::new(Some((80, 24)), T0);
    assert_eq!(editor.cursor(), (0, 0));
    assert_eq!(editor.offsets(), (0, 0));
    assert_eq!(editor.screen_size(), (80, 22));
    assert_eq!(editor.buffer().len(), 0);
    assert!(editor.file().is_none());
    assert!(!editor.is_dirty());
    assert!(!editor.is_quitting());
    assert!(editor.has_window());
    assert_eq!(editor.message().text(), "HELP: Ctrl-S = save | Ctrl-Q = quit");
    assert_eq!(editor.message().timestamp(), T0);
}

#[test]
fn new_editor_without_a_size_has_no_window() {
    let editor = Editor::new(None, T0);
    assert_eq!(editor.screen_size(), (0, 0));
    assert!(!editor.has_window());
    let small = Editor::new(Some((80, 2)), T0);
    assert_eq!(small.screen_size(), (80, 0));
    assert!(!small.has_window());
    let tiny = Editor::new(Some((80, 1)), T0);
    assert_eq!(tiny.screen_size(), (80, 0));
    let one = Editor::new(Some((80, 3)), T0);
    assert_eq!(one.screen_size(), (80, 1));
    assert!(one.has_window());
}

#[test]
fn ensure_screen_size_takes_the_cursor_report() {
    let mut editor = Editor::new(None, T0);
    assert!(!editor.ensure_screen_size(InputSeq::Key(b'a', false)));
    assert!(!editor.ensure_screen_size(InputSeq::Unidentified));
    assert_eq!(editor.screen_size(), (0, 0));
    assert!(editor.ensure_screen_size(InputSeq::Cursor(50, 120)));
    assert_eq!(editor.screen_size(), (120, 48));
    assert!(editor.ensure_screen_size(InputSeq::Cursor(10, 20)));
    assert_eq!(editor.screen_size(), (120, 48));
    assert!(editor.ensure_screen_size(InputSeq::UpKey));
}

#[test]
fn ensure_screen_size_of_a_tiny_terminal() {
    let mut editor = Editor::new(None, T0);
    assert!(editor.ensure_screen_size(InputSeq::Cursor(1, 9)));
    assert_eq!(editor.screen_size(), (9, 0));
    assert!(!editor.has_window());
}

#[test]
fn open_file_replaces_the_buffer() {
    let mut editor = Editor::new(Some((80, 24)), T0);
    editor.insert_char('x');
    assert!(editor.is_dirty());
    editor.open_file("dir/a.txt", "abc\n\nde\n");
    assert_eq!(rows_of(&editor), vec!["abc", "", "de"]);
    assert!(!editor.is_dirty());
    assert_eq!(editor.cursor(), (0, 0));
    let file = editor.file().unwrap();
    assert_eq!(file.path(), "dir/a.txt");
    assert_eq!(file.display(), "dir/a.txt");
}

#[test]
fn left_at_row_start_wraps_to_the_row_above() {
    let mut editor = editor_with("abc\n\nde");
    go_to(&mut editor, 0, 1);
    editor.move_cursor(CursorDir::Left);
    assert_eq!(editor.cursor(), (3, 0));
    go_to(&mut editor, 0, 2);
    editor.move_cursor(CursorDir::Left);
    assert_eq!(editor.cursor(), (0, 1));
    go_to(&mut editor, 0, 3);
    editor.move_cursor(CursorDir::Left);
    assert_eq!(editor.cursor(), (2, 2));
}

#[test]
fn left_at_the_origin_stays() {
    let mut editor = editor_with("abc");
    editor.move_cursor(CursorDir::Left);
    assert_eq!(editor.cursor(), (0, 0));
}

#[test]
fn right_at_row_end_wraps_to_the_row_below() {
    let mut editor = editor_with("abc\n\nde");
    go_to(&mut editor, 3, 0);
    editor.move_cursor(CursorDir::Right);
    assert_eq!(editor.cursor(), (0, 1));
    editor.move_cursor(CursorDir::Right);
    assert_eq!(editor.cursor(), (0, 2));
    go_to(&mut editor, 2, 2);
    editor.move_cursor(CursorDir::Right);
    assert_eq!(editor.cursor(), (0, 3));
    editor.move_cursor(CursorDir::Right);
    assert_eq!(editor.cursor(), (0, 3));
}

#[test]
fn left_and_right_within_a_row() {
    let mut editor = editor_with("abc");
    editor.move_cursor(CursorDir::Right);
    assert_eq!(editor.cursor(), (1, 0));
    editor.move_cursor(CursorDir::Right);
    assert_eq!(editor.cursor(), (2, 0));
    editor.move_cursor(CursorDir::Left);
    assert_eq!(editor.cursor(), (1, 0));
}

#[test]
fn up_and_down_clamp_the_column() {
    let mut editor = editor_with("abcdef\nab\nabcd");
    go_to(&mut editor, 5, 0);
    editor.move_cursor(CursorDir::Down);
    assert_eq!(editor.cursor(), (2, 1));
    editor.move_cursor(CursorDir::Down);
    assert_eq!(editor.cursor(), (2, 2));
    editor.move_cursor(CursorDir::Down);
    assert_eq!(editor.cursor(), (0, 3));
    editor.move_cursor(CursorDir::Down);
    assert_eq!(editor.cursor(), (0, 3));
    editor.move_cursor(CursorDir::Up);
    assert_eq!(editor.cursor(), (0, 2));
    go_to(&mut editor, 0, 0);
    editor.move_cursor(CursorDir::Up);
    assert_eq!(editor.cursor(), (0, 0));
}

#[test]
fn enter_at_row_end_adds_an_empty_row() {
    let mut editor = editor_with("abc\n\nde");
    go_to(&mut editor, 3, 0);
    let outcome = press(&mut editor, InputSeq::Key(b'm', true));
    assert!(is_continue(&outcome));
    assert_eq!(rows_of(&editor), vec!["abc", "", "", "de"]);
    assert_eq!(editor.cursor(), (0, 1));
    assert!(editor.is_dirty());
}

#[test]
fn enter_in_a_row_splits_it() {
    let mut editor = editor_with("abc\nde");
    go_to(&mut editor, 1, 0);
    press(&mut editor, InputSeq::Key(b'\r', false));
    assert_eq!(rows_of(&editor), vec!["a", "bc", "de"]);
    assert_eq!(editor.cursor(), (0, 1));
}

#[test]
fn enter_after_the_last_row_adds_a_row() {
    let mut editor = editor_with("abc");
    go_to(&mut editor, 0, 1);
    editor.insert_line();
    assert_eq!(rows_of(&editor), vec!["abc", ""]);
    assert_eq!(editor.cursor(), (0, 2));
    let mut empty = Editor::new(Some((80, 24)), T0);
    empty.insert_line();
    assert_eq!(rows_of(&empty), vec![""]);
    assert_eq!(empty.cursor(), (0, 1));
}

#[test]
fn typing_inserts_at_the_cursor() {
    let mut editor = Editor::new(Some((80, 24)), T0);
    press(&mut editor, InputSeq::Key(b'h', false));
    press(&mut editor, InputSeq::Key(b'i', false));
    assert_eq!(rows_of(&editor), vec!["hi"]);
    assert_eq!(editor.cursor(), (2, 0));
    assert!(editor.is_dirty());
    press(&mut editor, InputSeq::LeftKey);
    press(&mut editor, InputSeq::Key(b'-', false));
    assert_eq!(rows_of(&editor), vec!["h-i"]);
    assert_eq!(editor.cursor(), (2, 0));
}

#[test]
fn typing_a_high_byte_inserts_its_character() {
    let mut editor = Editor::new(Some((80, 24)), T0);
    press(&mut editor, InputSeq::Key(0xe9, false));
    assert_eq!(rows_of(&editor), vec!["é"]);
    assert_eq!(editor.cursor(), (1, 0));
}

#[test]
fn backspace_deletes_before_the_cursor() {
    let mut editor = editor_with("abc\nde");
    go_to(&mut editor, 2, 0);
    press(&mut editor, InputSeq::Key(0x7f, false));
    assert_eq!(rows_of(&editor), vec!["ac", "de"]);
    assert_eq!(editor.cursor(), (1, 0));
    press(&mut editor, InputSeq::Key(b'h', true));
    assert_eq!(rows_of(&editor), vec!["c", "de"]);
    assert_eq!(editor.cursor(), (0, 0));
    press(&mut editor, InputSeq::Key(0x08, false));
    assert_eq!(rows_of(&editor), vec!["c", "de"]);
    assert_eq!(editor.cursor(), (0, 0));
}

#[test]
fn backspace_at_row_start_joins_rows() {
    let mut editor = editor_with("abc\nde");
    go_to(&mut editor, 0, 1);
    editor.delete_char();
    assert_eq!(rows_of(&editor), vec!["abcde"]);
    assert_eq!(editor.cursor(), (3, 0));
    assert!(editor.is_dirty());
}

#[test]
fn backspace_after_the_last_row_does_nothing() {
    let mut editor = editor_with("abc");
    go_to(&mut editor, 0, 1);
    editor.delete_char();
    assert_eq!(rows_of(&editor), vec!["abc"]);
    assert_eq!(editor.cursor(), (0, 1));
    assert!(!editor.is_dirty());
}

#[test]
fn delete_removes_the_character_under_the_cursor() {
    let mut editor = editor_with("abc\nde");
    go_to(&mut editor, 1, 0);
    press(&mut editor, InputSeq::DeleteKey);
    assert_eq!(rows_of(&editor), vec!["ac", "de"]);
    assert_eq!(editor.cursor(), (1, 0));
    press(&mut editor, InputSeq::Key(b'd', true));
    assert_eq!(rows_of(&editor), vec!["a", "de"]);
    assert_eq!(editor.cursor(), (1, 0));
    press(&mut editor, InputSeq::DeleteKey);
    assert_eq!(rows_of(&editor), vec!["ade"]);
    assert_eq!(editor.cursor(), (1, 0));
}

#[test]
fn delete_at_the_end_of_the_last_row_moves_past_it() {
    let mut editor = editor_with("ab");
    go_to(&mut editor, 2, 0);
    press(&mut editor, InputSeq::DeleteKey);
    assert_eq!(rows_of(&editor), vec!["ab"]);
    assert_eq!(editor.cursor(), (0, 1));
}

#[test]
fn home_and_end_move_within_the_row() {
    let mut editor = editor_with("abcdef\nxy");
    go_to(&mut editor, 3, 0);
    press(&mut editor, InputSeq::EndKey);
    assert_eq!(editor.cursor(), (6, 0));
    press(&mut editor, InputSeq::HomeKey);
    assert_eq!(editor.cursor(), (0, 0));
    press(&mut editor, InputSeq::Key(b'e', true));
    assert_eq!(editor.cursor(), (6, 0));
    press(&mut editor, InputSeq::Key(b'a', true));
    assert_eq!(editor.cursor(), (0, 0));
    go_to(&mut editor, 0, 2);
    press(&mut editor, InputSeq::EndKey);
    assert_eq!(editor.cursor(), (0, 2));
}

#[test]
fn letter_aliases_move_the_cursor() {
    let mut editor = editor_with("ab\ncd");
    press(&mut editor, InputSeq::Key(b'f', true));
    assert_eq!(editor.cursor(), (1, 0));
    press(&mut editor, InputSeq::Key(b'n', true));
    assert_eq!(editor.cursor(), (1, 1));
    press(&mut editor, InputSeq::Key(b'b', true));
    assert_eq!(editor.cursor(), (0, 1));
    press(&mut editor, InputSeq::Key(b'p', true));
    assert_eq!(editor.cursor(), (0, 0));
}

fn numbered_lines(n: usize) -> String {
    let mut text = String::new();
    for i in 0..n {
        text.push_str(&format!("line {}\n", i));
    }
    text
}

#[test]
fn page_down_moves_by_a_window() {
    let mut editor = editor_with(&numbered_lines(100));
    editor.setup_scroll();
    press(&mut editor, InputSeq::PageDownKey);
    assert_eq!(editor.cursor().1, 43);
    editor.setup_scroll();
    assert_eq!(editor.offsets().1, 22);
    press(&mut editor, InputSeq::PageDownKey);
    assert_eq!(editor.cursor().1, 65);
    editor.setup_scroll();
    assert_eq!(editor.offsets().1, 44);
}

#[test]
fn page_down_stops_after_the_last_row() {
    let mut editor = editor_with(&numbered_lines(30));
    editor.setup_scroll();
    press(&mut editor, InputSeq::PageDownKey);
    assert_eq!(editor.cursor(), (0, 30));
    press(&mut editor, InputSeq::PageDownKey);
    assert_eq!(editor.cursor(), (0, 30));
}

#[test]
fn page_up_moves_by_a_window() {
    let mut editor = editor_with(&numbered_lines(100));
    go_to(&mut editor, 0, 70);
    editor.setup_scroll();
    assert_eq!(editor.offsets().1, 49);
    press(&mut editor, InputSeq::PageUpKey);
    assert_eq!(editor.cursor().1, 27);
    editor.setup_scroll();
    assert_eq!(editor.offsets().1, 27);
    press(&mut editor, InputSeq::PageUpKey);
    assert_eq!(editor.cursor().1, 5);
    editor.setup_scroll();
    press(&mut editor, InputSeq::PageUpKey);
    assert_eq!(editor.cursor().1, 0);
}

#[test]
fn page_keys_clamp_the_column() {
    let mut editor = editor_with("a long first line\nb\nc\n");
    go_to(&mut editor, 10, 0);
    editor.setup_scroll();
    press(&mut editor, InputSeq::PageDownKey);
    assert_eq!(editor.cursor(), (0, 3));
    let mut short = Editor::new(Some((80, 3)), T0);
    short.open_file("f", "abcdef\nab\nabcdef\n");
    go_to(&mut short, 6, 0);
    short.setup_scroll();
    press(&mut short, InputSeq::PageDownKey);
    assert_eq!(short.cursor(), (2, 1));
}

#[test]
fn page_keys_without_a_window_keep_the_cursor_in_the_buffer() {
    let mut editor = Editor::new(None, T0);
    editor.open_file("f", "abcdef\nab\n");
    go_to(&mut editor, 6, 0);
    press(&mut editor, InputSeq::PageDownKey);
    assert_eq!(editor.cursor(), (6, 0));
    press(&mut editor, InputSeq::PageUpKey);
    assert_eq!(editor.cursor(), (6, 0));
}

#[test]
fn setup_scroll_follows_the_cursor_down_and_up() {
    let mut editor = editor_with(&numbered_lines(100));
    editor.setup_scroll();
    assert_eq!(editor.offsets(), (0, 0));
    go_to(&mut editor, 0, 21);
    editor.setup_scroll();
    assert_eq!(editor.offsets(), (0, 0));
    editor.move_cursor(CursorDir::Down);
    editor.setup_scroll();
    assert_eq!(editor.offsets(), (0, 1));
    go_to(&mut editor, 0, 50);
    editor.setup_scroll();
    assert_eq!(editor.offsets(), (0, 29));
    for _ in 0..21 {
        editor.move_cursor(CursorDir::Up);
    }
    editor.setup_scroll();
    assert_eq!(editor.offsets(), (0, 29));
    editor.move_cursor(CursorDir::Up);
    editor.setup_scroll();
    assert_eq!(editor.offsets(), (0, 28));
}

#[test]
fn setup_scroll_follows_the_cursor_sideways() {
    let long: String = std::iter::repeat('x').take(200).collect();
    let mut editor = editor_with(&long);
    go_to(&mut editor, 79, 0);
    editor.setup_scroll();
    assert_eq!(editor.offsets(), (0, 0));
    assert_eq!(editor.render_x(), 79);
    editor.move_cursor(CursorDir::Right);
    editor.setup_scroll();
    assert_eq!(editor.offsets(), (1, 0));
    assert_eq!(editor.render_x(), 80);
    press(&mut editor, InputSeq::EndKey);
    editor.setup_scroll();
    assert_eq!(editor.offsets(), (121, 0));
    press(&mut editor, InputSeq::HomeKey);
    editor.setup_scroll();
    assert_eq!(editor.offsets(), (0, 0));
}

#[test]
fn setup_scroll_uses_the_display_column() {
    let mut editor = Editor::new(Some((10, 5)), T0);
    editor.open_file("f", "\t\tab");
    go_to(&mut editor, 2, 0);
    editor.setup_scroll();
    assert_eq!(editor.render_x(), 16);
    assert_eq!(editor.offsets(), (7, 0));
    go_to(&mut editor, 0, 1);
    editor.setup_scroll();
    assert_eq!(editor.render_x(), 0);
    assert_eq!(editor.offsets(), (0, 0));
}

#[test]
fn quit_on_a_clean_buffer_ends_the_session() {
    let mut editor = editor_with("abc");
    let outcome = press(&mut editor, InputSeq::Key(b'q', true));
    assert!(is_quit(&outcome));
    assert!(!editor.is_quitting());
}

#[test]
fn quit_on_a_dirty_buffer_asks_first() {
    let mut editor = editor_with("abc");
    press(&mut editor, InputSeq::Key(b'x', false));
    let first = editor.process_keypress(InputSeq::Key(b'q', true), T0 + 7);
    assert!(is_continue(&first));
    assert!(editor.is_quitting());
    assert_eq!(
        editor.message().text(),
        "File has unsaved changes! Press Ctrl-Q again to quit"
    );
    assert_eq!(editor.message().timestamp(), T0 + 7);
    let second = press(&mut editor, InputSeq::Key(b'q', true));
    assert!(is_quit(&second));
    assert_eq!(rows_of(&editor), vec!["xabc"]);
}

#[test]
fn any_other_key_disarms_the_quit() {
    let mut editor = editor_with("abc");
    press(&mut editor, InputSeq::Key(b'x', false));
    press(&mut editor, InputSeq::Key(b'q', true));
    assert!(editor.is_quitting());
    press(&mut editor, InputSeq::RightKey);
    assert!(!editor.is_quitting());
    let again = press(&mut editor, InputSeq::Key(b'q', true));
    assert!(is_continue(&again));
    assert!(editor.is_quitting());
    press(&mut editor, InputSeq::Key(b'l', true));
    assert!(!editor.is_quitting());
}

#[test]
fn events_that_are_no_keys_change_nothing() {
    let mut editor = editor_with("abc");
    press(&mut editor, InputSeq::Key(b'x', false));
    press(&mut editor, InputSeq::Key(b'q', true));
    assert!(is_continue(&press(&mut editor, InputSeq::Unidentified)));
    assert!(is_continue(&press(&mut editor, InputSeq::Cursor(3, 4))));
    assert!(editor.is_quitting());
    assert_eq!(editor.cursor(), (1, 0));
    assert_eq!(editor.screen_size(), (80, 22));
}

#[test]
fn reserved_keys_do_nothing() {
    let mut editor = editor_with("abc");
    assert!(is_continue(&press(&mut editor, InputSeq::Key(0x1b, false))));
    assert!(is_continue(&press(&mut editor, InputSeq::Key(b'l', true))));
    assert!(is_continue(&press(&mut editor, InputSeq::Key(b'z', true))));
    assert_eq!(rows_of(&editor), vec!["abc"]);
    assert_eq!(editor.cursor(), (0, 0));
    assert!(!editor.is_dirty());
}

#[test]
fn save_hands_back_the_file_and_reports_the_bytes() {
    let mut editor = Editor::new(Some((80, 24)), T0);
    editor.open_file("P", "a\nbb");
    press(&mut editor, InputSeq::Key(b'x', false));
    press(&mut editor, InputSeq::Key(0x7f, false));
    assert!(editor.is_dirty());
    let write = editor.save(T0 + 5).unwrap();
    assert_eq!(write.path, "P");
    assert_eq!(write.bytes, b"a\nbb\n".to_vec());
    assert_eq!(write.bytes.len(), 5);
    assert_eq!(editor.message().text(), "5 bytes written to P");
    assert_eq!(editor.message().timestamp(), T0 + 5);
    assert!(!editor.is_dirty());
}

#[test]
fn save_counts_bytes_not_characters() {
    let mut editor = editor_with("é\n€\n");
    let write = editor.save(T0).unwrap();
    assert_eq!(write.bytes, "é\n€\n".as_bytes().to_vec());
    assert_eq!(editor.message().text(), "7 bytes written to notes.txt");
}

#[test]
fn save_of_an_empty_buffer_writes_nothing() {
    let mut editor = editor_with("");
    let write = editor.save(T0).unwrap();
    assert_eq!(write.bytes, Vec::<u8>::new());
    assert_eq!(editor.message().text(), "0 bytes written to notes.txt");
}

#[test]
fn save_of_a_large_buffer_writes_its_size_in_decimal() {
    let mut editor = editor_with(&numbered_lines(1000));
    let write = editor.save(T0).unwrap();
    assert_eq!(write.bytes.len(), 8890);
    assert_eq!(editor.message().text(), "8890 bytes written to notes.txt");
}

#[test]
fn save_without_a_file_tells_the_user() {
    let mut editor = Editor::new(Some((80, 24)), T0);
    press(&mut editor, InputSeq::Key(b'x', false));
    let write = editor.save(T0 + 9);
    assert!(write.is_none());
    assert_eq!(editor.message().text(), "Cannot save unnamed buffer");
    assert_eq!(editor.message().timestamp(), T0 + 9);
    assert!(editor.is_dirty());
}

#[test]
fn ctrl_s_saves() {
    let mut editor = editor_with("a\nbb");
    press(&mut editor, InputSeq::Key(b'!', false));
    let outcome = press(&mut editor, InputSeq::Key(b's', true));
    match outcome {
        Outcome::Write(write) => {
            assert_eq!(write.path, "notes.txt");
            assert_eq!(write.bytes, b"!a\nbb\n".to_vec());
        }
        _ => panic!("a save was expected"),
    }
    assert!(!editor.is_dirty());
    assert!(is_quit(&press(&mut editor, InputSeq::Key(b'q', true))));
}

#[test]
fn ctrl_s_without_a_file_goes_on() {
    let mut editor = Editor::new(Some((80, 24)), T0);
    let outcome = press(&mut editor, InputSeq::Key(b's', true));
    assert!(is_continue(&outcome));
    assert_eq!(editor.message().text(), "Cannot save unnamed buffer");
}

#[test]
fn bindings_name_the_actions() {
    assert_eq!(binding(InputSeq::UpKey), Action::Move(CursorDir::Up));
    assert_eq!(binding(InputSeq::Key(b'p', true)), Action::Move(CursorDir::Up));
    assert_eq!(binding(InputSeq::Key(b'b', true)), Action::Move(CursorDir::Left));
    assert_eq!(binding(InputSeq::Key(b'n', true)), Action::Move(CursorDir::Down));
    assert_eq!(binding(InputSeq::Key(b'f', true)), Action::Move(CursorDir::Right));
    assert_eq!(binding(InputSeq::PageUpKey), Action::PageUp);
    assert_eq!(binding(InputSeq::PageDownKey), Action::PageDown);
    assert_eq!(binding(InputSeq::Key(b'a', true)), Action::Home);
    assert_eq!(binding(InputSeq::Key(b'e', true)), Action::End);
    assert_eq!(binding(InputSeq::Key(b'd', true)), Action::DeleteForward);
    assert_eq!(binding(InputSeq::Key(b'h', true)), Action::DeleteBack);
    assert_eq!(binding(InputSeq::Key(0x08, false)), Action::DeleteBack);
    assert_eq!(binding(InputSeq::Key(0x7f, false)), Action::DeleteBack);
    assert_eq!(binding(InputSeq::Key(b'q', true)), Action::Quit);
    assert_eq!(binding(InputSeq::Key(b'm', true)), Action::NewLine);
    assert_eq!(binding(InputSeq::Key(b'\r', false)), Action::NewLine);
    assert_eq!(binding(InputSeq::Key(b's', true)), Action::Save);
    assert_eq!(binding(InputSeq::Key(b'l', true)), Action::Nothing);
    assert_eq!(binding(InputSeq::Key(0x1b, false)), Action::Nothing);
    assert_eq!(binding(InputSeq::Key(b'k', true)), Action::Nothing);
    assert_eq!(binding(InputSeq::Key(b'q', false)), Action::Insert(b'q'));
    assert_eq!(binding(InputSeq::Key(b' ', false)), Action::Insert(b' '));
    assert_eq!(binding(InputSeq::Unidentified), Action::Ignore);
    assert_eq!(binding(InputSeq::Cursor(1, 1)), Action::Ignore);
}

#[test]
fn size_query_asks_only_without_a_window() {
    let mut editor = Editor::new(None, T0);
    assert_eq!(editor.size_query(), Some(String::from("\x1b[9999C\x1b[9999B\x1b[6n")));
    assert!(editor.ensure_screen_size(InputSeq::Cursor(24, 80)));
    assert_eq!(editor.size_query(), None);
    assert_eq!(Editor::new(Some((80, 24)), T0).size_query(), None);
    assert!(Editor::new(Some((80, 2)), T0).size_query().is_some());
}
