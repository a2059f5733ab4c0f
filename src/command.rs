use vstd::prelude::*;

use crate::app::{normalized, record, redo_step, undo_step, App, InputMode, Selection, Snap};
use crate::motion::{all_digits, digits_value, parse_line_number};
use crate::search::is_match_list;
use crate::text::{
    backward_delete, clamp_col, clamp_row, delete_range_doc, forward_delete_doc, insert_doc, join_lines,
    paste_col, paste_lines, range_text, split_doc, split_lines,
};

verus! {

/// An abstract input command. The `bool` of a movement asks to extend the
/// selection; `Click` places the cursor at a document position.
#[derive(Clone, Copy, Debug, PartialEq, Eq, Structural)]
pub enum Command {
    Quit,
    Save,
    Undo,
    Redo,
    Find,
    GoTo,
    Copy,
    Cut,
    Paste,
    SelectAll,
    Up(bool),
    Down(bool),
    Left(bool),
    Right(bool),
    Home(bool),
    End(bool),
    PageUp,
    PageDown,
    Tab,
    Delete,
    Backspace,
    Enter,
    Esc,
    Char(char),
    Click(usize, usize),
}

/// What the caller is to do after a command: carry on, end the session, or
/// write the document out (and call `mark_saved` if that worked).
#[derive(Clone, Copy, Debug, PartialEq, Eq, Structural)]
pub enum Action {
    Continue,
    Quit,
    Save,
}

/// The mode after `cmd` in `mode`.
pub open spec fn next_mode(mode: InputMode, cmd: Command, modified: bool) -> InputMode {
    match mode {
        InputMode::Normal => match cmd {
            Command::Quit => if modified {
                InputMode::ConfirmQuit
            } else {
                InputMode::Normal
            },
            Command::Find => InputMode::Search,
            Command::GoTo => InputMode::GoToLine,
            _ => InputMode::Normal,
        },
        InputMode::Search => match cmd {
            Command::Esc | Command::Enter => InputMode::Normal,
            _ => InputMode::Search,
        },
        InputMode::GoToLine => match cmd {
            Command::Esc | Command::Enter => InputMode::Normal,
            _ => InputMode::GoToLine,
        },
        InputMode::ConfirmQuit => match cmd {
            Command::Esc => InputMode::Normal,
            Command::Char(c) => if c == 'n' || c == 'N' {
                InputMode::Normal
            } else {
                InputMode::ConfirmQuit
            },
            _ => InputMode::ConfirmQuit,
        },
    }
}

/// What the caller is told to do after `cmd` in `mode`: a quit ends the
/// session at once only when nothing is unsaved, else once confirmed.
pub open spec fn action_for(mode: InputMode, cmd: Command, modified: bool) -> Action {
    match mode {
        InputMode::Normal => match cmd {
            Command::Quit => if modified {
                Action::Continue
            } else {
                Action::Quit
            },
            Command::Save => Action::Save,
            _ => Action::Continue,
        },
        InputMode::ConfirmQuit => match cmd {
            Command::Char(c) => if c == 'y' || c == 'Y' {
                Action::Quit
            } else {
                Action::Continue
            },
            _ => Action::Continue,
        },
        _ => Action::Continue,
    }
}

/// The commands that edit the document in normal mode.
pub open spec fn is_edit(cmd: Command) -> bool {
    match cmd {
        Command::Cut | Command::Paste | Command::Tab | Command::Delete | Command::Backspace
        | Command::Enter | Command::Char(_) => true,
        _ => false,
    }
}

/// The document and cursor once the selection, if any, is taken out.
pub open spec fn without_selection(s: Snap, sel: Option<Selection>) -> Snap {
    match sel {
        None => s,
        Some(x) => {
            let (lr, lc, hr, hc) = normalized(x);
            Snap { lines: delete_range_doc(s.lines, lr as int, lc as int, hr as int, hc as int), row: lr as int, col: lc as int }
        },
    }
}

/// The document and cursor after typing `ch`.
pub open spec fn insert_snap(s: Snap, ch: char) -> Snap {
    Snap { lines: insert_doc(s.lines, s.row, s.col, ch), row: s.row, col: s.col + 1 }
}

/// The document and cursor after pasting `text` at the cursor.
pub open spec fn paste_snap(s: Snap, text: Seq<char>) -> Snap {
    let line = s.lines[s.row];
    let head = line.subrange(0, s.col);
    let tail = line.subrange(s.col, line.len() as int);
    let pieces = split_lines(text);
    Snap {
        lines: s.lines.subrange(0, s.row) + paste_lines(head, pieces, tail) + s.lines.subrange(s.row + 1, s.lines.len() as int),
        row: s.row + pieces.len() - 1,
        col: paste_col(head, pieces),
    }
}

/// Whether an editing command changes anything: a cut needs a selection, a
/// paste a clipboard, a delete something to delete.
pub open spec fn edit_acts(cmd: Command, s: Snap, sel: Option<Selection>, clip: Seq<char>) -> bool {
    match cmd {
        Command::Cut => sel.is_some(),
        Command::Paste => clip.len() > 0,
        Command::Delete => sel.is_some() || s.col < s.lines[s.row].len() || s.row + 1 < s.lines.len(),
        Command::Backspace => sel.is_some() || s.col > 0 || s.row > 0,
        Command::Tab | Command::Enter | Command::Char(_) => true,
        _ => false,
    }
}

/// The document and cursor after an editing command in normal mode. Typing,
/// a line break, a tab or a paste replaces the selection; a cut, delete or
/// backspace with a selection only takes it out.
pub open spec fn edit_result(cmd: Command, s: Snap, sel: Option<Selection>, clip: Seq<char>) -> Snap {
    if !edit_acts(cmd, s, sel, clip) {
        s
    } else {
        let t = without_selection(s, sel);
        match cmd {
            Command::Delete => if sel.is_some() {
                t
            } else {
                Snap { lines: forward_delete_doc(s.lines, s.row, s.col), row: s.row, col: s.col }
            },
            Command::Backspace => if sel.is_some() {
                t
            } else {
                let (d, r, c) = backward_delete(s.lines, s.row, s.col);
                Snap { lines: d, row: r, col: c }
            },
            Command::Char(ch) => insert_snap(t, ch),
            Command::Enter => Snap { lines: split_doc(t.lines, t.row, t.col), row: t.row + 1, col: 0 },
            Command::Tab => insert_snap(insert_snap(insert_snap(insert_snap(t, ' '), ' '), ' '), ' '),
            Command::Paste => paste_snap(t, clip),
            _ => t,
        }
    }
}

impl App {
    /// Starts one edit: saves the state once, then takes out any selection.
    fn begin_edit(&mut self)
        requires
            old(self).wf(),
        ensures
            final(self).wf(),
            final(self).history() == record(old(self).history(), final(self).snap()),
            final(self).snap() == without_selection(old(self).snap(), old(self).selection),
            final(self).selection.is_none(),
            final(self).input_mode == old(self).input_mode,
            final(self).search_matches == old(self).search_matches,
            final(self).search_index == old(self).search_index,
            final(self).clipboard == old(self).clipboard,
    {
        self.save_state();
        if self.selection.is_some() {
            self.delete_selected_range();
        }
    }

    /// Before a movement: an extending one starts a selection where there is
    /// none, any other ends the selection.
    fn before_move(&mut self, extend: bool)
        requires
            old(self).wf(),
        ensures
            final(self).wf(),
            extend ==> final(self).selection.is_some(),
            !extend ==> final(self).selection.is_none(),
            extend && old(self).selection.is_some() ==> final(self).selection == old(self).selection,
            *final(self) == (App { selection: final(self).selection, ..*old(self) }),
    {
        if extend && self.selection.is_none() {
            self.start_selection();
        } else if !extend {
            self.clear_selection();
        }
    }

    /// After a movement: an extending one brings the selection's live end to
    /// the cursor.
    fn after_move(&mut self, extend: bool)
        requires
            old(self).wf(),
            extend ==> old(self).selection.is_some(),
        ensures
            final(self).wf(),
            extend ==> (final(self).selection matches Some(s) && s.end_row == final(self).cursor_row
                && s.end_col == final(self).cursor_col),
            !extend ==> final(self).selection == old(self).selection,
            *final(self) == (App { selection: final(self).selection, ..*old(self) }),
    {
        if extend {
            self.update_selection();
        }
    }

    /// Selects the whole document.
    pub fn select_all(&mut self)
        requires
            old(self).wf(),
        ensures
            final(self).wf(),
            final(self).selection == Some(Selection {
                start_row: 0,
                start_col: 0,
                end_row: (old(self).lines().len() - 1) as usize,
                end_col: old(self).lines().last().len() as usize,
            }),
            *final(self) == (App { selection: final(self).selection, ..*old(self) }),
    {
        let n = self.content.len();
        let len = self.content[n - 1].len();
        self.selection = Some(Selection { start_row: 0, start_col: 0, end_row: n - 1, end_col: len });
    }

    /// The text to write out: the lines joined by line breaks, with one
    /// after the last.
    pub fn file_text(&self) -> (r: Vec<char>)
        requires
            self.wf(),
        ensures
            r@ == join_lines(self.lines()) + seq!['\n'],
    {
        let mut r: Vec<char> = Vec::new();
        let mut i: usize = 0;
        while i < self.content.len()
            invariant
                i <= self.content@.len(),
                self.content@.len() >= 1,
                i == 0 ==> r@.len() == 0,
                i > 0 ==> r@ == join_lines(self.lines().subrange(0, i as int)),
            decreases self.content@.len() - i,
        {
            let ghost before = r@;
            if i > 0 {
                r.push('\n');
            }
            let n = self.content[i].len();
            let ghost line = self.content@[i as int]@;
            let mut j: usize = 0;
            while j < n
                invariant
                    j <= n == line.len(),
                    i < self.content@.len(),
                    line == self.content@[i as int]@,
                    r@ == (if i > 0 { before + seq!['\n'] } else { before }) + line.subrange(0, j as int),
                decreases n - j,
            {
                r.push(self.content[i][j]);
                j = j + 1;
                assert(r@ =~= (if i > 0 { before + seq!['\n'] } else { before }) + line.subrange(0, j as int));
            }
            proof {
                let ls = self.lines().subrange(0, i + 1);
                assert(line.subrange(0, n as int) =~= line);
                assert(ls.last() == line);
                if i == 0 {
                    assert(ls.len() == 1);
                    assert(r@ =~= join_lines(ls));
                } else {
                    assert(ls.drop_last() =~= self.lines().subrange(0, i as int));
                }
            }
            i = i + 1;
        }
        assert(self.lines().subrange(0, self.content@.len() as int) =~= self.lines());
        r.push('\n');
        r
    }

    /// Records that the document was written out.
    pub fn mark_saved(&mut self)
        requires
            old(self).wf(),
        ensures
            final(self).wf(),
            *final(self) == (App { modified: false, ..*old(self) }),
    {
        self.modified = false;
    }

    /// A command in normal mode.
    fn handle_normal(&mut self, cmd: Command, viewport_height: usize) -> (r: Action)
        requires
            old(self).wf(),
            old(self).input_mode == InputMode::Normal,
        ensures
            final(self).wf(),
            r == action_for(InputMode::Normal, cmd, old(self).modified),
            final(self).input_mode == next_mode(InputMode::Normal, cmd, old(self).modified),
            r == Action::Quit ==> final(self).exit,
            cmd == Command::Undo ==> final(self).history() == undo_step(old(self).history()),
            cmd == Command::Redo ==> final(self).history() == redo_step(old(self).history()),
            is_edit(cmd) ==> final(self).snap() == edit_result(cmd, old(self).snap(), old(self).selection, old(self).clipboard@),
            is_edit(cmd) && edit_acts(cmd, old(self).snap(), old(self).selection, old(self).clipboard@) ==> {
                &&& final(self).history() == record(old(self).history(), final(self).snap())
                &&& final(self).modified
                &&& final(self).selection.is_none()
            },
            is_edit(cmd) && !edit_acts(cmd, old(self).snap(), old(self).selection, old(self).clipboard@) ==> {
                &&& final(self).history() == old(self).history()
                &&& final(self).modified == old(self).modified
            },
            !is_edit(cmd) && cmd != Command::Undo && cmd != Command::Redo ==> final(self).lines() == old(self).lines()
                && final(self).undo_stack == old(self).undo_stack && final(self).redo_stack == old(self).redo_stack,
            cmd == Command::Copy ==> (old(self).selection matches Some(s) ==> final(self).clipboard@ == range_text(
                old(self).lines(),
                normalized(s).0 as int,
                normalized(s).1 as int,
                normalized(s).2 as int,
                normalized(s).3 as int,
            )),
            cmd == Command::Cut ==> (old(self).selection matches Some(s) ==> final(self).clipboard@ == range_text(
                old(self).lines(),
                normalized(s).0 as int,
                normalized(s).1 as int,
                normalized(s).2 as int,
                normalized(s).3 as int,
            )),
            (cmd matches Command::Click(row, col) ==> {
                &&& final(self).cursor_row == clamp_row(old(self).lines(), row as int)
                &&& final(self).cursor_col == clamp_col(old(self).lines(), final(self).cursor_row as int, col as int)
                &&& final(self).selection.is_none()
            }),
            cmd == Command::Esc ==> final(self).selection.is_none(),
            (cmd matches Command::Up(false) || cmd matches Command::Down(false) || cmd matches Command::Left(false)
                || cmd matches Command::Right(false) || cmd matches Command::Home(false) || cmd matches Command::End(false)
                || cmd == Command::PageUp || cmd == Command::PageDown) ==> final(self).selection.is_none(),
    {
        match cmd {
            Command::Quit => {
                if self.modified {
                    self.input_mode = InputMode::ConfirmQuit;
                } else {
                    self.exit = true;
                    return Action::Quit;
                }
            },
            Command::Save => {
                return Action::Save;
            },
            Command::Undo => {
                self.undo();
            },
            Command::Redo => {
                self.redo();
            },
            Command::Find => {
                self.input_mode = InputMode::Search;
                self.input_buffer = Vec::new();
            },
            Command::GoTo => {
                self.input_mode = InputMode::GoToLine;
                self.input_buffer = Vec::new();
            },
            Command::Copy => {
                if self.selection.is_some() {
                    self.clipboard = self.get_selected_text();
                }
            },
            Command::Cut => {
                if self.selection.is_some() {
                    self.clipboard = self.get_selected_text();
                    self.delete_selection();
                }
            },
            Command::Paste => {
                if self.clipboard.len() > 0 {
                    let clip = self.clipboard.clone();
                    self.begin_edit();
                    self.insert_text_block(&clip);
                    self.modified = true;
                }
            },
            Command::SelectAll => {
                self.select_all();
            },
            Command::Up(extend) => {
                self.before_move(extend);
                self.move_up();
                self.after_move(extend);
            },
            Command::Down(extend) => {
                self.before_move(extend);
                self.move_down();
                self.after_move(extend);
            },
            Command::Left(extend) => {
                self.before_move(extend);
                self.move_left();
                self.after_move(extend);
            },
            Command::Right(extend) => {
                self.before_move(extend);
                self.move_right();
                self.after_move(extend);
            },
            Command::Home(extend) => {
                self.before_move(extend);
                self.move_home();
                self.after_move(extend);
            },
            Command::End(extend) => {
                self.before_move(extend);
                self.move_end();
                self.after_move(extend);
            },
            Command::PageUp => {
                self.clear_selection();
                self.page_up(viewport_height);
            },
            Command::PageDown => {
                self.clear_selection();
                self.page_down(viewport_height);
            },
            Command::Tab => {
                self.begin_edit();
                self.insert_char(' ');
                self.insert_char(' ');
                self.insert_char(' ');
                self.insert_char(' ');
                self.modified = true;
            },
            Command::Delete => {
                if self.selection.is_some() {
                    self.delete_selection();
                } else {
                    let n = self.content.len();
                    let len = self.content[self.cursor_row].len();
                    if self.cursor_col < len || self.cursor_row + 1 < n {
                        self.save_state();
                        self.delete_char_forward();
                        self.modified = true;
                    }
                }
            },
            Command::Backspace => {
                if self.selection.is_some() {
                    self.delete_selection();
                } else if self.cursor_col > 0 || self.cursor_row > 0 {
                    self.save_state();
                    self.delete_char_backward();
                    self.modified = true;
                }
            },
            Command::Enter => {
                self.begin_edit();
                self.split_line();
                self.modified = true;
            },
            Command::Char(c) => {
                self.begin_edit();
                self.insert_char(c);
                self.modified = true;
            },
            Command::Esc => {
                self.clear_selection();
            },
            Command::Click(row, col) => {
                self.place_cursor(row, col);
                self.clear_selection();
            },
        }
        Action::Continue
    }

    /// A command while a search query is typed.
    fn handle_search(&mut self, cmd: Command)
        requires
            old(self).wf(),
            old(self).input_mode == InputMode::Search,
        ensures
            final(self).wf(),
            final(self).input_mode == next_mode(InputMode::Search, cmd, old(self).modified),
            final(self).lines() == old(self).lines(),
            final(self).undo_stack == old(self).undo_stack,
            final(self).redo_stack == old(self).redo_stack,
            final(self).modified == old(self).modified,
            final(self).exit == old(self).exit,
            (cmd matches Command::Char(c) ==> final(self).input_buffer@ == old(self).input_buffer@.push(c)),
            cmd == Command::Backspace ==> final(self).input_buffer@ == if old(self).input_buffer@.len() == 0 {
                old(self).input_buffer@
            } else {
                old(self).input_buffer@.drop_last()
            },
            cmd == Command::Esc ==> final(self).search_matches@.len() == 0,
            cmd == Command::Enter ==> {
                &&& final(self).search_query@ == old(self).input_buffer@
                &&& old(self).input_buffer@.len() == 0 ==> final(self).search_matches@.len() == 0
                &&& old(self).input_buffer@.len() > 0 ==> is_match_list(old(self).lines(), old(self).input_buffer@, final(self).search_matches@)
                &&& final(self).search_matches@.len() > 0 ==> final(self).cursor_row == final(self).search_matches@[0].0
                    && final(self).cursor_col == final(self).search_matches@[0].1
            },
    {
        match cmd {
            Command::Esc => {
                self.input_mode = InputMode::Normal;
                self.search_matches = Vec::new();
            },
            Command::Enter => {
                let q = self.input_buffer.clone();
                assert(q@ =~= self.input_buffer@);
                self.search_query = q;
                self.search();
                if self.search_matches.len() > 0 {
                    let (row, col) = self.search_matches[0];
                    let p = self.clamp_position(row, col);
                    self.cursor_row = p.0;
                    self.cursor_col = p.1;
                }
                self.input_mode = InputMode::Normal;
            },
            Command::Char(c) => {
                self.input_buffer.push(c);
            },
            Command::Backspace => {
                self.input_buffer.pop();
            },
            Command::Down(_) | Command::Tab => {
                let q = self.input_buffer.clone();
                assert(q@ =~= self.input_buffer@);
                self.search_query = q;
                self.search();
                self.next_match();
            },
            Command::Up(_) => {
                let q = self.input_buffer.clone();
                assert(q@ =~= self.input_buffer@);
                self.search_query = q;
                self.search();
                self.prev_match();
            },
            _ => {},
        }
    }

    /// A command while a line number is typed.
    fn handle_goto(&mut self, cmd: Command)
        requires
            old(self).wf(),
            old(self).input_mode == InputMode::GoToLine,
        ensures
            final(self).wf(),
            final(self).input_mode == next_mode(InputMode::GoToLine, cmd, old(self).modified),
            final(self).lines() == old(self).lines(),
            final(self).undo_stack == old(self).undo_stack,
            final(self).redo_stack == old(self).redo_stack,
            final(self).modified == old(self).modified,
            final(self).exit == old(self).exit,
            final(self).selection == old(self).selection,
            (cmd matches Command::Char(c) ==> final(self).input_buffer@ == if '0' <= c <= '9' {
                old(self).input_buffer@.push(c)
            } else {
                old(self).input_buffer@
            }),
            cmd == Command::Backspace ==> final(self).input_buffer@ == if old(self).input_buffer@.len() == 0 {
                old(self).input_buffer@
            } else {
                old(self).input_buffer@.drop_last()
            },
            cmd == Command::Enter ==> if old(self).input_buffer@.len() > 0 && all_digits(old(self).input_buffer@)
                && digits_value(old(self).input_buffer@) <= usize::MAX {
                &&& final(self).cursor_row == clamp_row(old(self).lines(), if digits_value(old(self).input_buffer@) > 0 {
                    digits_value(old(self).input_buffer@) - 1
                } else {
                    0
                })
                &&& final(self).cursor_col == 0
            } else {
                final(self).cursor_row == old(self).cursor_row && final(self).cursor_col == old(self).cursor_col
            },
            cmd != Command::Enter ==> final(self).cursor_row == old(self).cursor_row && final(self).cursor_col == old(self).cursor_col,
    {
        match cmd {
            Command::Esc => {
                self.input_mode = InputMode::Normal;
            },
            Command::Enter => {
                if let Some(n) = parse_line_number(&self.input_buffer) {
                    self.go_to_line(n);
                }
                self.input_mode = InputMode::Normal;
            },
            Command::Char(c) => {
                if '0' <= c && c <= '9' {
                    self.input_buffer.push(c);
                }
            },
            Command::Backspace => {
                self.input_buffer.pop();
            },
            _ => {},
        }
    }

    /// Handles one command: in normal mode it edits, moves, selects and
    /// enters the other modes; in search mode it types and runs the query
    /// and steps through matches; in go-to-line mode it types digits and
    /// jumps; in confirm-quit mode it quits or returns to normal mode.
    /// `viewport_height` is the number of rows that a page moves.
    pub fn handle(&mut self, cmd: Command, viewport_height: usize) -> (r: Action)
        requires
            old(self).wf(),
        ensures
            final(self).wf(),
            r == action_for(old(self).input_mode, cmd, old(self).modified),
            final(self).input_mode == next_mode(old(self).input_mode, cmd, old(self).modified),
            r == Action::Quit ==> final(self).exit,
            old(self).input_mode == InputMode::Normal && cmd == Command::Undo ==> final(self).history() == undo_step(old(self).history()),
            old(self).input_mode == InputMode::Normal && cmd == Command::Redo ==> final(self).history() == redo_step(old(self).history()),
            old(self).input_mode == InputMode::Normal && is_edit(cmd) ==> final(self).snap() == edit_result(
                cmd,
                old(self).snap(),
                old(self).selection,
                old(self).clipboard@,
            ),
            old(self).input_mode == InputMode::Normal && is_edit(cmd) && edit_acts(cmd, old(self).snap(), old(self).selection, old(self).clipboard@) ==> {
                &&& final(self).history() == record(old(self).history(), final(self).snap())
                &&& final(self).modified
                &&& final(self).selection.is_none()
            },
            old(self).input_mode == InputMode::Normal && is_edit(cmd) && !edit_acts(cmd, old(self).snap(), old(self).selection, old(self).clipboard@) ==> {
                &&& final(self).history() == old(self).history()
                &&& final(self).modified == old(self).modified
            },
            !(old(self).input_mode == InputMode::Normal && (is_edit(cmd) || cmd == Command::Undo || cmd == Command::Redo)) ==> {
                &&& final(self).lines() == old(self).lines()
                &&& final(self).undo_stack == old(self).undo_stack
                &&& final(self).redo_stack == old(self).redo_stack
            },
            old(self).input_mode == InputMode::Normal && cmd == Command::Copy ==> (old(self).selection matches Some(s)
                ==> final(self).clipboard@ == range_text(
                old(self).lines(),
                normalized(s).0 as int,
                normalized(s).1 as int,
                normalized(s).2 as int,
                normalized(s).3 as int,
            )),
            old(self).input_mode == InputMode::Normal && cmd == Command::Cut ==> (old(self).selection matches Some(s)
                ==> final(self).clipboard@ == range_text(
                old(self).lines(),
                normalized(s).0 as int,
                normalized(s).1 as int,
                normalized(s).2 as int,
                normalized(s).3 as int,
            )),
            old(self).input_mode == InputMode::Normal ==> (cmd matches Command::Click(row, col) ==> {
                &&& final(self).cursor_row == clamp_row(old(self).lines(), row as int)
                &&& final(self).cursor_col == clamp_col(old(self).lines(), final(self).cursor_row as int, col as int)
                &&& final(self).selection.is_none()
            }),
            old(self).input_mode == InputMode::Search ==> (cmd == Command::Enter ==> {
                &&& final(self).search_query@ == old(self).input_buffer@
                &&& old(self).input_buffer@.len() > 0 ==> is_match_list(old(self).lines(), old(self).input_buffer@, final(self).search_matches@)
                &&& final(self).search_matches@.len() > 0 ==> final(self).cursor_row == final(self).search_matches@[0].0
                    && final(self).cursor_col == final(self).search_matches@[0].1
            }),
            old(self).input_mode == InputMode::GoToLine ==> (cmd == Command::Enter ==> if old(self).input_buffer@.len() > 0
                && all_digits(old(self).input_buffer@) && digits_value(old(self).input_buffer@) <= usize::MAX {
                &&& final(self).cursor_row == clamp_row(old(self).lines(), if digits_value(old(self).input_buffer@) > 0 {
                    digits_value(old(self).input_buffer@) - 1
                } else {
                    0
                })
                &&& final(self).cursor_col == 0
            } else {
                final(self).cursor_row == old(self).cursor_row && final(self).cursor_col == old(self).cursor_col
            }),
            old(self).input_mode == InputMode::ConfirmQuit ==> final(self).snap() == old(self).snap(),
    {
        match self.input_mode {
            InputMode::Normal => self.handle_normal(cmd, viewport_height),
            InputMode::Search => {
                self.handle_search(cmd);
                Action::Continue
            },
            InputMode::GoToLine => {
                self.handle_goto(cmd);
                Action::Continue
            },
            InputMode::ConfirmQuit => {
                match cmd {
                    Command::Char(c) => {
                        if c == 'y' || c == 'Y' {
                            self.exit = true;
                            return Action::Quit;
                        } else if c == 'n' || c == 'N' {
                            self.input_mode = InputMode::Normal;
                        }
                    },
                    Command::Esc => {
                        self.input_mode = InputMode::Normal;
                    },
                    _ => {},
                }
                Action::Continue
            },
        }
    }
}

} // verus!
