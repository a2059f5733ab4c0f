use oxide::app::{App, InputMode, Selection};
use oxide::command::{Action, Command};
use oxide::motion::parse_line_number;
use oxide::search::find_matches;

fn chars(s: &str) -> Vec<char> {
    s.chars().collect()
}

fn doc(lines: &[&str]) -> App {
    let mut app = App::new();
    app.load(lines.iter().map(|l| chars(l)).collect(), false);
    app
}

fn text(app: &App) -> Vec<String> {
    app.content.iter().map(|l| l.iter().collect()).collect()
}

fn select(app: &mut App, sr: usize, sc: usize, er: usize, ec: usize) {
    app.selection = Some(Selection { start_row: sr, start_col: sc, end_row: er, end_col: ec });
}

#[test]
fn new_editor_has_one_empty_line() {
    let app = App::new();
    assert_eq!(text(&app), vec![String::new()]);
    assert_eq!((app.cursor_row, app.cursor_col), (0, 0));
    assert!(!app.modified);
}

#[test]
fn load_of_nothing_gives_one_empty_line() {
    let mut app = App::new();
    app.load(Vec::new(), true);
    assert_eq!(text(&app), vec![String::new()]);
    assert!(app.modified);
}

#[test]
fn search_scenario_matches_and_next() {
    let mut app = doc(&["hello world", "foo"]);
    app.search_query = chars("o");
    app.search();
    assert_eq!(app.search_matches, vec![(0, 4), (0, 7), (1, 1), (1, 2)]);
    assert_eq!(app.search_index, 0);
    app.next_match();
    assert_eq!((app.cursor_row, app.cursor_col), (0, 7));
}

#[test]
fn search_finds_overlapping_matches() {
    let lines = vec![chars("aaa")];
    assert_eq!(find_matches(&lines, &chars("aa")), vec![(0, 0), (0, 1)]);
}

#[test]
fn search_with_empty_query_clears() {
    let mut app = doc(&["abc"]);
    app.search_query = chars("b");
    app.search();
    assert_eq!(app.search_matches.len(), 1);
    app.search_query = Vec::new();
    app.search();
    assert!(app.search_matches.is_empty());
}

#[test]
fn next_match_cycles_back() {
    let mut app = doc(&["hello world", "foo"]);
    app.search_query = chars("o");
    app.search();
    let n = app.search_matches.len();
    for _ in 0..n {
        app.next_match();
    }
    assert_eq!(app.search_index, 0);
}

#[test]
fn prev_match_from_first_goes_to_last() {
    let mut app = doc(&["hello world", "foo"]);
    app.search_query = chars("o");
    app.search();
    app.prev_match();
    assert_eq!(app.search_index, 3);
    assert_eq!((app.cursor_row, app.cursor_col), (1, 2));
}

#[test]
fn matches_are_in_document_order() {
    let mut app = doc(&["abab", "b", "xbb"]);
    app.search_query = chars("b");
    app.search();
    let m = app.search_matches.clone();
    assert_eq!(m, vec![(0, 1), (0, 3), (1, 0), (2, 1), (2, 2)]);
    for k in 1..m.len() {
        assert!(m[k - 1] < m[k]);
    }
}

#[test]
fn next_match_on_stale_match_stays_in_document() {
    let mut app = doc(&["xx", "xx"]);
    app.search_query = chars("x");
    app.search();
    app.load(vec![chars("x")], false);
    app.search_matches = vec![(0, 0), (1, 1)];
    app.next_match();
    assert_eq!((app.cursor_row, app.cursor_col), (0, 1));
}

#[test]
fn delete_selection_scenario() {
    let mut app = doc(&["hello world", "foo"]);
    select(&mut app, 0, 0, 0, 5);
    app.delete_selection();
    assert_eq!(text(&app), vec![" world", "foo"]);
    assert_eq!((app.cursor_row, app.cursor_col), (0, 0));
    assert!(app.selection.is_none());
    assert!(app.modified);
}

#[test]
fn delete_selection_backwards_across_lines() {
    let mut app = doc(&["abc", "def", "ghi"]);
    select(&mut app, 2, 1, 0, 2);
    app.delete_selection();
    assert_eq!(text(&app), vec!["abhi"]);
    assert_eq!((app.cursor_row, app.cursor_col), (0, 2));
    assert!(app.selection.is_none());
    app.undo();
    assert_eq!(text(&app), vec!["abc", "def", "ghi"]);
}

#[test]
fn delete_selection_without_selection_does_nothing() {
    let mut app = doc(&["abc"]);
    app.delete_selection();
    assert_eq!(text(&app), vec!["abc"]);
    assert!(app.undo_stack.is_empty());
    assert!(!app.modified);
}

#[test]
fn normalization_ignores_direction() {
    let app = doc(&["a", "b", "c"]);
    let up = Selection { start_row: 2, start_col: 0, end_row: 0, end_col: 0 };
    let down = Selection { start_row: 0, start_col: 0, end_row: 2, end_col: 0 };
    assert_eq!(app.normalize_selection(up), (0, 0, 2, 0));
    assert_eq!(app.normalize_selection(down), (0, 0, 2, 0));
}

#[test]
fn normalization_orders_by_column_on_one_row() {
    let app = doc(&["abcdef"]);
    let sel = Selection { start_row: 0, start_col: 4, end_row: 0, end_col: 1 };
    assert_eq!(app.normalize_selection(sel), (0, 1, 0, 4));
}

#[test]
fn selected_text_joins_lines() {
    let mut app = doc(&["hello", "big", "world"]);
    select(&mut app, 2, 3, 0, 1);
    let t: String = app.get_selected_text().iter().collect();
    assert_eq!(t, "ello\nbig\nwor");
    select(&mut app, 0, 1, 0, 4);
    let t: String = app.get_selected_text().iter().collect();
    assert_eq!(t, "ell");
    app.clear_selection();
    assert!(app.get_selected_text().is_empty());
}

#[test]
fn selected_text_of_two_lines() {
    let mut app = doc(&["ab", "cd"]);
    select(&mut app, 0, 1, 1, 1);
    let t: String = app.get_selected_text().iter().collect();
    assert_eq!(t, "b\nc");
}

#[test]
fn backspace_scenario() {
    let mut app = doc(&["ab"]);
    app.cursor_col = 2;
    app.delete_char_backward();
    app.delete_char_backward();
    assert_eq!(text(&app), vec![""]);
    assert_eq!((app.cursor_row, app.cursor_col), (0, 0));
    app.delete_char_backward();
    assert_eq!(text(&app), vec![""]);
    assert_eq!((app.cursor_row, app.cursor_col), (0, 0));
}

#[test]
fn backspace_joins_lines() {
    let mut app = doc(&["ab", "cd"]);
    app.cursor_row = 1;
    app.delete_char_backward();
    assert_eq!(text(&app), vec!["abcd"]);
    assert_eq!((app.cursor_row, app.cursor_col), (0, 2));
}

#[test]
fn delete_forward_scenario() {
    let mut app = doc(&["a", "b"]);
    app.cursor_col = 1;
    app.delete_char_forward();
    assert_eq!(text(&app), vec!["ab"]);
    assert_eq!((app.cursor_row, app.cursor_col), (0, 1));
    app.cursor_col = 2;
    app.delete_char_forward();
    assert_eq!(text(&app), vec!["ab"]);
    app.cursor_col = 0;
    app.delete_char_forward();
    assert_eq!(text(&app), vec!["b"]);
}

#[test]
fn goto_line_scenario() {
    let mut app = doc(&["a", "b", "c"]);
    assert_eq!(app.handle(Command::GoTo, 10), Action::Continue);
    assert!(app.input_mode == InputMode::GoToLine);
    app.handle(Command::Char('9'), 10);
    app.handle(Command::Char('x'), 10);
    app.handle(Command::Char('9'), 10);
    assert_eq!(app.input_buffer, chars("99"));
    app.handle(Command::Enter, 10);
    assert_eq!((app.cursor_row, app.cursor_col), (2, 0));
    assert!(app.input_mode == InputMode::Normal);
}

#[test]
fn goto_line_with_empty_input_does_nothing() {
    let mut app = doc(&["a", "b", "c"]);
    app.cursor_row = 1;
    app.handle(Command::GoTo, 10);
    app.handle(Command::Enter, 10);
    assert_eq!(app.cursor_row, 1);
    assert!(app.input_mode == InputMode::Normal);
}

#[test]
fn parse_line_number_cases() {
    assert_eq!(parse_line_number(&chars("42")), Some(42));
    assert_eq!(parse_line_number(&chars("007")), Some(7));
    assert_eq!(parse_line_number(&chars("")), None);
    assert_eq!(parse_line_number(&chars("4a")), None);
    assert_eq!(parse_line_number(&chars("99999999999999999999999")), None);
    let max = usize::MAX.to_string();
    assert_eq!(parse_line_number(&chars(&max)), Some(usize::MAX));
}

#[test]
fn go_to_line_zero_goes_to_first() {
    let mut app = doc(&["a", "b"]);
    app.cursor_row = 1;
    app.go_to_line(0);
    assert_eq!((app.cursor_row, app.cursor_col), (0, 0));
}

#[test]
fn undo_then_redo_round_trip() {
    let mut app = doc(&["abc"]);
    app.cursor_col = 1;
    app.handle(Command::Char('x'), 10);
    assert_eq!(text(&app), vec!["axbc"]);
    assert_eq!(app.cursor_col, 2);
    app.undo();
    assert_eq!(text(&app), vec!["abc"]);
    assert_eq!((app.cursor_row, app.cursor_col), (0, 1));
    app.redo();
    assert_eq!(text(&app), vec!["axbc"]);
    assert_eq!((app.cursor_row, app.cursor_col), (0, 2));
}

#[test]
fn undo_and_redo_on_empty_stacks_do_nothing() {
    let mut app = doc(&["abc"]);
    app.undo();
    app.redo();
    assert_eq!(text(&app), vec!["abc"]);
    assert!(!app.modified);
}

#[test]
fn new_edit_clears_redo() {
    let mut app = doc(&["abc"]);
    app.handle(Command::Char('x'), 10);
    app.undo();
    assert_eq!(app.redo_stack.len(), 1);
    app.handle(Command::Char('y'), 10);
    assert!(app.redo_stack.is_empty());
}

#[test]
fn typing_over_selection_takes_one_snapshot() {
    let mut app = doc(&["hello"]);
    select(&mut app, 0, 0, 0, 4);
    app.handle(Command::Char('j'), 10);
    assert_eq!(text(&app), vec!["jo"]);
    assert_eq!(app.undo_stack.len(), 1);
    app.undo();
    assert_eq!(text(&app), vec!["hello"]);
}

#[test]
fn undo_keeps_selection_inside_document() {
    let mut app = doc(&["ab"]);
    app.cursor_col = 2;
    app.handle(Command::Enter, 10);
    app.handle(Command::Char('c'), 10);
    app.handle(Command::Char('d'), 10);
    select(&mut app, 1, 0, 1, 2);
    app.undo();
    app.undo();
    app.undo();
    assert_eq!(text(&app), vec!["ab"]);
    let sel = app.selection.unwrap();
    assert!(sel.start_row == 0 && sel.end_row == 0 && sel.end_col <= 2);
}

#[test]
fn split_line_moves_rest_down() {
    let mut app = doc(&["hello"]);
    app.cursor_col = 2;
    app.split_line();
    assert_eq!(text(&app), vec!["he", "llo"]);
    assert_eq!((app.cursor_row, app.cursor_col), (1, 0));
}

#[test]
fn paste_block_of_lines() {
    let mut app = doc(&["abXY"]);
    app.cursor_col = 2;
    app.insert_text_block(&chars("1\n22\n333"));
    assert_eq!(text(&app), vec!["ab1", "22", "333XY"]);
    assert_eq!((app.cursor_row, app.cursor_col), (2, 3));
}

#[test]
fn paste_single_segment() {
    let mut app = doc(&["abXY"]);
    app.cursor_col = 2;
    app.insert_text_block(&chars("cd"));
    assert_eq!(text(&app), vec!["abcdXY"]);
    assert_eq!((app.cursor_row, app.cursor_col), (0, 4));
}

#[test]
fn cut_and_paste_through_commands() {
    let mut app = doc(&["one two"]);
    app.handle(Command::Right(true), 10);
    app.handle(Command::Right(true), 10);
    app.handle(Command::Right(true), 10);
    app.handle(Command::Cut, 10);
    assert_eq!(text(&app), vec![" two"]);
    assert_eq!(app.clipboard, chars("one"));
    app.handle(Command::End(false), 10);
    app.handle(Command::Paste, 10);
    assert_eq!(text(&app), vec![" twoone"]);
    assert_eq!(app.cursor_col, 7);
}

#[test]
fn paste_with_empty_clipboard_does_nothing() {
    let mut app = doc(&["abc"]);
    app.handle(Command::Paste, 10);
    assert_eq!(text(&app), vec!["abc"]);
    assert!(app.undo_stack.is_empty());
}

#[test]
fn copy_select_all() {
    let mut app = doc(&["ab", "cd"]);
    app.handle(Command::SelectAll, 10);
    app.handle(Command::Copy, 10);
    assert_eq!(app.clipboard, chars("ab\ncd"));
    assert_eq!(text(&app), vec!["ab", "cd"]);
}

#[test]
fn tab_inserts_four_spaces() {
    let mut app = doc(&["x"]);
    app.handle(Command::Tab, 10);
    assert_eq!(text(&app), vec!["    x"]);
    assert_eq!(app.cursor_col, 4);
}

#[test]
fn vertical_moves_clamp_and_forget_column() {
    let mut app = doc(&["abcdef", "ab", "abcdef"]);
    app.cursor_col = 5;
    app.handle(Command::Down(false), 10);
    assert_eq!((app.cursor_row, app.cursor_col), (1, 2));
    app.handle(Command::Down(false), 10);
    assert_eq!((app.cursor_row, app.cursor_col), (2, 2));
    app.handle(Command::Down(false), 10);
    assert_eq!((app.cursor_row, app.cursor_col), (2, 2));
}

#[test]
fn horizontal_moves_wrap() {
    let mut app = doc(&["ab", "cd"]);
    app.cursor_col = 2;
    app.handle(Command::Right(false), 10);
    assert_eq!((app.cursor_row, app.cursor_col), (1, 0));
    app.handle(Command::Left(false), 10);
    assert_eq!((app.cursor_row, app.cursor_col), (0, 2));
    app.cursor_col = 0;
    app.handle(Command::Left(false), 10);
    assert_eq!((app.cursor_row, app.cursor_col), (0, 0));
}

#[test]
fn home_end_and_pages() {
    let mut app = doc(&["abc", "de", "f", "ghij"]);
    app.handle(Command::End(false), 10);
    assert_eq!(app.cursor_col, 3);
    app.handle(Command::PageDown, 2);
    assert_eq!((app.cursor_row, app.cursor_col), (2, 1));
    app.handle(Command::PageDown, 2);
    assert_eq!(app.cursor_row, 3);
    app.handle(Command::PageUp, 10);
    assert_eq!(app.cursor_row, 0);
    app.handle(Command::Home(false), 10);
    assert_eq!(app.cursor_col, 0);
}

#[test]
fn extending_moves_select_and_plain_moves_clear() {
    let mut app = doc(&["abc", "def"]);
    app.handle(Command::Down(true), 10);
    app.handle(Command::Right(true), 10);
    assert_eq!(app.selection, Some(Selection { start_row: 0, start_col: 0, end_row: 1, end_col: 1 }));
    app.handle(Command::Left(false), 10);
    assert!(app.selection.is_none());
}

#[test]
fn click_clamps_position() {
    let mut app = doc(&["abc", "de"]);
    app.handle(Command::Click(7, 9), 10);
    assert_eq!((app.cursor_row, app.cursor_col), (1, 2));
    app.handle(Command::Click(0, 1), 10);
    assert_eq!((app.cursor_row, app.cursor_col), (0, 1));
}

#[test]
fn quit_without_changes_ends_at_once() {
    let mut app = doc(&["a"]);
    assert_eq!(app.handle(Command::Quit, 10), Action::Quit);
    assert!(app.exit);
}

#[test]
fn quit_with_changes_asks_first() {
    let mut app = doc(&["a"]);
    app.handle(Command::Char('b'), 10);
    assert_eq!(app.handle(Command::Quit, 10), Action::Continue);
    assert!(app.input_mode == InputMode::ConfirmQuit);
    assert_eq!(app.handle(Command::Char('n'), 10), Action::Continue);
    assert!(app.input_mode == InputMode::Normal);
    app.handle(Command::Quit, 10);
    assert_eq!(app.handle(Command::Char('Y'), 10), Action::Quit);
}

#[test]
fn save_asks_caller_and_clears_modified() {
    let mut app = doc(&["a", "b"]);
    app.handle(Command::Char('x'), 10);
    assert_eq!(app.handle(Command::Save, 10), Action::Save);
    let t: String = app.file_text().iter().collect();
    assert_eq!(t, "xa\nb\n");
    app.mark_saved();
    assert!(!app.modified);
}

#[test]
fn search_mode_enter_jumps_to_first_match() {
    let mut app = doc(&["hello world", "foo"]);
    app.handle(Command::Find, 10);
    app.handle(Command::Char('o'), 10);
    app.handle(Command::Char('r'), 10);
    app.handle(Command::Backspace, 10);
    app.handle(Command::Enter, 10);
    assert!(app.input_mode == InputMode::Normal);
    assert_eq!(app.search_query, chars("o"));
    assert_eq!((app.cursor_row, app.cursor_col), (0, 4));
}

#[test]
fn search_mode_steps_and_cancels() {
    let mut app = doc(&["hello world", "foo"]);
    app.handle(Command::Find, 10);
    app.handle(Command::Char('o'), 10);
    app.handle(Command::Down(false), 10);
    assert_eq!((app.cursor_row, app.cursor_col), (0, 7));
    app.handle(Command::Up(false), 10);
    assert_eq!((app.cursor_row, app.cursor_col), (1, 2));
    app.handle(Command::Esc, 10);
    assert!(app.input_mode == InputMode::Normal);
    assert!(app.search_matches.is_empty());
}

#[test]
fn scroll_follows_cursor() {
    let mut app = doc(&["a"; 30]);
    app.cursor_row = 20;
    app.adjust_scroll(10);
    assert_eq!(app.scroll_offset, 11);
    app.cursor_row = 5;
    app.adjust_scroll(10);
    assert_eq!(app.scroll_offset, 5);
    app.cursor_row = 9;
    app.adjust_scroll(10);
    assert_eq!(app.scroll_offset, 5);
}

#[test]
fn delete_range_across_lines() {
    let mut app = doc(&["abc", "def", "ghi", "jkl"]);
    app.delete_range(0, 1, 2, 2);
    assert_eq!(text(&app), vec!["ai", "jkl"]);
    assert_eq!((app.cursor_row, app.cursor_col), (0, 1));
}

#[test]
fn backspace_at_start_is_not_an_edit() {
    let mut app = doc(&["ab"]);
    app.handle(Command::Backspace, 10);
    assert!(app.undo_stack.is_empty());
    assert!(!app.modified);
}

#[test]
fn in_selection_covers_half_open_range() {
    let mut app = doc(&["abc", "def", "ghi"]);
    assert!(!app.in_selection(0, 0));
    select(&mut app, 2, 1, 0, 2);
    assert!(!app.in_selection(0, 1));
    assert!(app.in_selection(0, 2));
    assert!(app.in_selection(1, 0));
    assert!(app.in_selection(2, 0));
    assert!(!app.in_selection(2, 1));
}

#[test]
fn backspace_and_delete_take_out_selection() {
    let mut app = doc(&["abcdef"]);
    select(&mut app, 0, 1, 0, 3);
    app.handle(Command::Backspace, 10);
    assert_eq!(text(&app), vec!["adef"]);
    assert_eq!(app.cursor_col, 1);
    select(&mut app, 0, 3, 0, 1);
    app.handle(Command::Delete, 10);
    assert_eq!(text(&app), vec!["af"]);
    assert_eq!(app.undo_stack.len(), 2);
}

#[test]
fn tab_replaces_selection() {
    let mut app = doc(&["abc"]);
    select(&mut app, 0, 0, 0, 2);
    app.handle(Command::Tab, 10);
    assert_eq!(text(&app), vec!["    c"]);
    assert_eq!(app.cursor_col, 4);
    assert_eq!(app.undo_stack.len(), 1);
}

#[test]
fn enter_splits_line_through_commands() {
    let mut app = doc(&["abcd"]);
    app.cursor_col = 2;
    app.handle(Command::Enter, 10);
    assert_eq!(text(&app), vec!["ab", "cd"]);
    assert_eq!((app.cursor_row, app.cursor_col), (1, 0));
    assert!(app.modified);
}

#[test]
fn file_text_of_empty_document() {
    let app = App::new();
    let t: String = app.file_text().iter().collect();
    assert_eq!(t, "\n");
}
