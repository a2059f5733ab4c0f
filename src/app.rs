use vstd::prelude::*;

use crate::search::{find_matches, is_match_list, next_index, prev_index};
use crate::text::{
    clamp_col, clamp_row, delete_range_doc, doc_wf, join_lines, lines_view, pos_le, range_pieces,
    pos_lt, range_text, valid_pos,
};

verus! {

/// How keystrokes are read: editing, typing a search query, typing a line
/// number, or confirming a quit with unsaved changes.
#[derive(Clone, Copy, Debug, PartialEq, Eq, Structural)]
pub enum InputMode {
    Normal,
    Search,
    GoToLine,
    ConfirmQuit,
}

/// A saved copy of the document and the cursor.
pub struct EditorState {
    pub content: Vec<Vec<char>>,
    pub cursor_row: usize,
    pub cursor_col: usize,
}

/// An anchor, fixed when the selection starts, and a live end that follows
/// the cursor. Either may come first in the document.
#[derive(Clone, Copy, Debug, PartialEq, Eq, Structural)]
pub struct Selection {
    pub start_row: usize,
    pub start_col: usize,
    pub end_row: usize,
    pub end_col: usize,
}

/// The selection's two ends in document order: `(lo_row, lo_col, hi_row, hi_col)`.
pub open spec fn normalized(s: Selection) -> (usize, usize, usize, usize) {
    if pos_le(s.start_row as int, s.start_col as int, s.end_row as int, s.end_col as int) {
        (s.start_row, s.start_col, s.end_row, s.end_col)
    } else {
        (s.end_row, s.end_col, s.start_row, s.start_col)
    }
}

/// A selection made from `(r1, c1)` to `(r2, c2)` and one made from `(r2, c2)`
/// to `(r1, c1)` cover the same range: normalizing depends on the two ends
/// alone, not on the direction in which the selection grew.
pub proof fn lemma_normalize_direction_independent(r1: usize, c1: usize, r2: usize, c2: usize)
    ensures
        normalized(Selection { start_row: r1, start_col: c1, end_row: r2, end_col: c2 })
            == normalized(Selection { start_row: r2, start_col: c2, end_row: r1, end_col: c1 }),
        pos_le(
            normalized(Selection { start_row: r1, start_col: c1, end_row: r2, end_col: c2 }).0 as int,
            normalized(Selection { start_row: r1, start_col: c1, end_row: r2, end_col: c2 }).1 as int,
            normalized(Selection { start_row: r1, start_col: c1, end_row: r2, end_col: c2 }).2 as int,
            normalized(Selection { start_row: r1, start_col: c1, end_row: r2, end_col: c2 }).3 as int,
        ),
{
}

/// The document and cursor as mathematical values.
pub struct Snap {
    pub lines: Seq<Seq<char>>,
    pub row: int,
    pub col: int,
}

/// The current document and cursor with both history stacks, top last.
pub struct History {
    pub cur: Snap,
    pub undo: Seq<Snap>,
    pub redo: Seq<Snap>,
}

/// A snapshot can be restored: its document has a line and its cursor lies in it.
pub open spec fn snap_wf(s: Snap) -> bool {
    doc_wf(s.lines) && valid_pos(s.lines, s.row, s.col)
}

/// An edit that led to `next`: the state before it goes on the undo stack,
/// and the redo stack empties.
pub open spec fn record(h: History, next: Snap) -> History {
    History { cur: next, undo: h.undo.push(h.cur), redo: Seq::empty() }
}

/// One undo: the top of the undo stack becomes current, and the current state
/// goes on the redo stack. Nothing changes when the undo stack is empty.
pub open spec fn undo_step(h: History) -> History {
    if h.undo.len() == 0 {
        h
    } else {
        History { cur: h.undo.last(), undo: h.undo.drop_last(), redo: h.redo.push(h.cur) }
    }
}

/// One redo, the mirror of `undo_step`.
pub open spec fn redo_step(h: History) -> History {
    if h.redo.len() == 0 {
        h
    } else {
        History { cur: h.redo.last(), undo: h.undo.push(h.cur), redo: h.redo.drop_last() }
    }
}

/// Undoing an edit restores the state before it, with the history it had,
/// and redoing it then brings back the state after the edit.
pub proof fn lemma_undo_redo_round_trip(h: History, next: Snap)
    ensures
        undo_step(record(h, next)) == (History { cur: h.cur, undo: h.undo, redo: seq![next] }),
        redo_step(undo_step(record(h, next))) == record(h, next),
{
    assert(h.undo.push(h.cur).drop_last() =~= h.undo);
    assert(Seq::<Snap>::empty().push(next) =~= seq![next]);
    assert(seq![next].drop_last() =~= Seq::<Snap>::empty());
}

impl EditorState {
    /// The saved document and cursor.
    pub open spec fn snap(&self) -> Snap {
        Snap {
            lines: lines_view(self.content@),
            row: self.cursor_row as int,
            col: self.cursor_col as int,
        }
    }
}

/// The saved states of a stack, bottom first.
pub open spec fn snaps(v: Seq<EditorState>) -> Seq<Snap> {
    Seq::new(v.len(), |i: int| v[i].snap())
}

/// Copies each line.
fn clone_lines(v: &Vec<Vec<char>>) -> (r: Vec<Vec<char>>)
    ensures
        lines_view(r@) == lines_view(v@),
{
    let mut r: Vec<Vec<char>> = Vec::new();
    let mut i: usize = 0;
    while i < v.len()
        invariant
            i <= v.len(),
            r@.len() == i,
            forall|j: int| 0 <= j < i ==> r@[j]@ == v@[j]@,
        decreases v.len() - i,
    {
        let line = v[i].clone();
        assert(line@ =~= v@[i as int]@);
        r.push(line);
        i = i + 1;
    }
    assert(lines_view(r@) =~= lines_view(v@));
    r
}

/// Appends the characters of `src` from `from` up to `to`.
fn append_range(dst: &mut Vec<char>, src: &Vec<char>, from: usize, to: usize)
    requires
        from <= to <= src@.len(),
    ensures
        final(dst)@ == old(dst)@ + src@.subrange(from as int, to as int),
{
    let mut i: usize = from;
    while i < to
        invariant
            from <= i <= to <= src@.len(),
            dst@ == old(dst)@ + src@.subrange(from as int, i as int),
        decreases to - i,
    {
        dst.push(src[i]);
        i = i + 1;
        assert(dst@ =~= old(dst)@ + src@.subrange(from as int, i as int));
    }
}

proof fn lemma_join_push(lines: Seq<Seq<char>>, k: int)
    requires
        1 <= k < lines.len(),
    ensures
        join_lines(lines.subrange(0, k + 1)) == join_lines(lines.subrange(0, k)) + seq!['\n'] + lines[k],
{
    assert(lines.subrange(0, k + 1).drop_last() =~= lines.subrange(0, k));
}

/// The editor: document, cursor, selection, history, search and mode.
pub struct App {
    pub exit: bool,
    pub filename: String,
    pub content: Vec<Vec<char>>,
    pub cursor_row: usize,
    pub cursor_col: usize,
    pub modified: bool,
    pub scroll_offset: usize,
    pub undo_stack: Vec<EditorState>,
    pub redo_stack: Vec<EditorState>,
    pub input_mode: InputMode,
    pub input_buffer: Vec<char>,
    pub search_query: Vec<char>,
    pub search_matches: Vec<(usize, usize)>,
    pub search_index: usize,
    pub selection: Option<Selection>,
    pub clipboard: Vec<char>,
}

impl App {
    /// The document.
    pub open spec fn lines(&self) -> Seq<Seq<char>> {
        lines_view(self.content@)
    }

    /// The document and the cursor.
    pub open spec fn snap(&self) -> Snap {
        Snap { lines: self.lines(), row: self.cursor_row as int, col: self.cursor_col as int }
    }

    /// The document and cursor with the undo and redo stacks.
    pub open spec fn history(&self) -> History {
        History { cur: self.snap(), undo: snaps(self.undo_stack@), redo: snaps(self.redo_stack@) }
    }

    /// Everything but the document, cursor, selection, history and modified
    /// flag is as in `o`: mode, input, search, clipboard and scrolling.
    pub open spec fn same_aux(&self, o: &App) -> bool {
        &&& self.exit == o.exit
        &&& self.filename == o.filename
        &&& self.input_mode == o.input_mode
        &&& self.input_buffer == o.input_buffer
        &&& self.search_query == o.search_query
        &&& self.search_matches == o.search_matches
        &&& self.search_index == o.search_index
        &&& self.clipboard == o.clipboard
        &&& self.scroll_offset == o.scroll_offset
    }

    /// `(r, c)` is a position of the document.
    pub open spec fn valid(&self, r: int, c: int) -> bool {
        valid_pos(self.lines(), r, c)
    }

    /// The state that every operation keeps: a document with at least one
    /// line, the cursor and both ends of any selection inside it, restorable
    /// snapshots, and a current match inside the match list.
    pub open spec fn wf(&self) -> bool {
        &&& snap_wf(self.snap())
        &&& forall|i: int| 0 <= i < self.undo_stack@.len() ==> snap_wf(#[trigger] self.undo_stack@[i].snap())
        &&& forall|i: int| 0 <= i < self.redo_stack@.len() ==> snap_wf(#[trigger] self.redo_stack@[i].snap())
        &&& self.selection matches Some(s) ==> self.valid(s.start_row as int, s.start_col as int)
            && self.valid(s.end_row as int, s.end_col as int)
        &&& self.search_matches@.len() > 0 ==> self.search_index < self.search_matches@.len()
    }

    /// An editor on one empty line, unmodified, in normal mode.
    pub fn new() -> (r: App)
        ensures
            r.wf(),
            r.lines() == seq![Seq::<char>::empty()],
            r.cursor_row == 0 && r.cursor_col == 0,
            !r.modified && !r.exit,
            r.scroll_offset == 0,
            r.undo_stack@.len() == 0 && r.redo_stack@.len() == 0,
            r.input_mode == InputMode::Normal,
            r.input_buffer@.len() == 0 && r.search_query@.len() == 0 && r.clipboard@.len() == 0,
            r.search_matches@.len() == 0 && r.search_index == 0,
            r.selection.is_none(),
    {
        let mut content: Vec<Vec<char>> = Vec::new();
        content.push(Vec::new());
        let r = App {
            exit: false,
            filename: String::new(),
            content,
            cursor_row: 0,
            cursor_col: 0,
            modified: false,
            scroll_offset: 0,
            undo_stack: Vec::new(),
            redo_stack: Vec::new(),
            input_mode: InputMode::Normal,
            input_buffer: Vec::new(),
            search_query: Vec::new(),
            search_matches: Vec::new(),
            search_index: 0,
            selection: None,
            clipboard: Vec::new(),
        };
        assert(r.lines() =~= seq![Seq::<char>::empty()]);
        r
    }

    /// Pushes the current document and cursor on the undo stack and empties
    /// the redo stack.
    pub fn save_state(&mut self)
        requires
            old(self).wf(),
        ensures
            final(self).same_aux(old(self)),
            final(self).wf(),
            final(self).history() == record(old(self).history(), old(self).snap()),
            final(self).content == old(self).content,
            final(self).selection == old(self).selection,
            final(self).modified == old(self).modified,
            final(self).search_matches == old(self).search_matches,
            final(self).search_index == old(self).search_index,
            final(self).input_mode == old(self).input_mode,
            final(self).scroll_offset == old(self).scroll_offset,
    {
        let content = clone_lines(&self.content);
        let st = EditorState { content, cursor_row: self.cursor_row, cursor_col: self.cursor_col };
        self.undo_stack.push(st);
        self.redo_stack.clear();
        assert(snaps(self.undo_stack@) =~= snaps(old(self).undo_stack@).push(old(self).snap()));
        assert(snaps(self.redo_stack@) =~= Seq::<Snap>::empty());
    }

    /// The position nearest to `(r, c)` in the document.
    pub fn clamp_position(&self, r: usize, c: usize) -> (p: (usize, usize))
        requires
            self.wf(),
        ensures
            p.0 == clamp_row(self.lines(), r as int),
            p.1 == clamp_col(self.lines(), p.0 as int, c as int),
            self.valid(p.0 as int, p.1 as int),
    {
        let row = if r < self.content.len() { r } else { self.content.len() - 1 };
        let len = self.content[row].len();
        let col = if c <= len { c } else { len };
        (row, col)
    }

    /// Moves a selection that the document no longer holds back inside it.
    pub(crate) fn clamp_selection(&mut self)
        requires
            doc_wf(old(self).lines()),
        ensures
            final(self).same_aux(old(self)),
            final(self).lines() == old(self).lines(),
            final(self).cursor_row == old(self).cursor_row,
            final(self).cursor_col == old(self).cursor_col,
            final(self).undo_stack == old(self).undo_stack,
            final(self).redo_stack == old(self).redo_stack,
            final(self).search_matches == old(self).search_matches,
            final(self).search_index == old(self).search_index,
            final(self).modified == old(self).modified,
            final(self).input_mode == old(self).input_mode,
            final(self).scroll_offset == old(self).scroll_offset,
            final(self).selection.is_some() == old(self).selection.is_some(),
            final(self).selection matches Some(s) ==> final(self).valid(s.start_row as int, s.start_col as int)
                && final(self).valid(s.end_row as int, s.end_col as int),
            old(self).selection matches Some(s) ==> (old(self).valid(s.start_row as int, s.start_col as int)
                && old(self).valid(s.end_row as int, s.end_col as int) ==> final(self).selection == old(self).selection),
    {
        if let Some(s) = self.selection {
            let n = self.content.len();
            let sr = if s.start_row < n { s.start_row } else { n - 1 };
            let sl = self.content[sr].len();
            let sc = if s.start_col <= sl { s.start_col } else { sl };
            let er = if s.end_row < n { s.end_row } else { n - 1 };
            let el = self.content[er].len();
            let ec = if s.end_col <= el { s.end_col } else { el };
            self.selection = Some(Selection { start_row: sr, start_col: sc, end_row: er, end_col: ec });
        }
    }

    /// Restores the top of the undo stack, after pushing the current document
    /// and cursor on the redo stack. Nothing changes when there is nothing to undo.
    pub fn undo(&mut self)
        requires
            old(self).wf(),
        ensures
            final(self).same_aux(old(self)),
            final(self).wf(),
            final(self).history() == undo_step(old(self).history()),
            final(self).modified == (old(self).modified || old(self).undo_stack@.len() > 0),
            old(self).undo_stack@.len() == 0 ==> final(self).selection == old(self).selection,
            final(self).search_matches == old(self).search_matches,
            final(self).search_index == old(self).search_index,
            final(self).input_mode == old(self).input_mode,
            final(self).scroll_offset == old(self).scroll_offset,
    {
        if self.undo_stack.len() > 0 {
            let ghost h = old(self).history();
            let state = self.undo_stack.pop().unwrap();
            assert(snaps(self.undo_stack@) =~= h.undo.drop_last());
            assert(snap_wf(state.snap())) by {
                assert(state == old(self).undo_stack@[old(self).undo_stack@.len() - 1]);
            }
            let content = clone_lines(&self.content);
            self.redo_stack.push(EditorState { content, cursor_row: self.cursor_row, cursor_col: self.cursor_col });
            assert(snaps(self.redo_stack@) =~= h.redo.push(h.cur));
            self.content = state.content;
            self.cursor_row = state.cursor_row;
            self.cursor_col = state.cursor_col;
            self.modified = true;
            self.clamp_selection();
        }
    }

    /// Restores the top of the redo stack, after pushing the current document
    /// and cursor on the undo stack. Nothing changes when there is nothing to redo.
    pub fn redo(&mut self)
        requires
            old(self).wf(),
        ensures
            final(self).same_aux(old(self)),
            final(self).wf(),
            final(self).history() == redo_step(old(self).history()),
            final(self).modified == (old(self).modified || old(self).redo_stack@.len() > 0),
            old(self).redo_stack@.len() == 0 ==> final(self).selection == old(self).selection,
            final(self).search_matches == old(self).search_matches,
            final(self).search_index == old(self).search_index,
            final(self).input_mode == old(self).input_mode,
            final(self).scroll_offset == old(self).scroll_offset,
    {
        if self.redo_stack.len() > 0 {
            let ghost h = old(self).history();
            let state = self.redo_stack.pop().unwrap();
            assert(snaps(self.redo_stack@) =~= h.redo.drop_last());
            assert(snap_wf(state.snap())) by {
                assert(state == old(self).redo_stack@[old(self).redo_stack@.len() - 1]);
            }
            let content = clone_lines(&self.content);
            self.undo_stack.push(EditorState { content, cursor_row: self.cursor_row, cursor_col: self.cursor_col });
            assert(snaps(self.undo_stack@) =~= h.undo.push(h.cur));
            self.content = state.content;
            self.cursor_row = state.cursor_row;
            self.cursor_col = state.cursor_col;
            self.modified = true;
            self.clamp_selection();
        }
    }

    /// Scrolls as little as needed to bring the cursor's row into a viewport
    /// of `viewport_height` rows starting at the scroll offset.
    pub fn adjust_scroll(&mut self, viewport_height: usize)
        requires
            old(self).wf(),
        ensures
            final(self).wf(),
            final(self).scroll_offset == if old(self).cursor_row < old(self).scroll_offset {
                old(self).cursor_row as int
            } else if old(self).cursor_row >= old(self).scroll_offset + viewport_height {
                old(self).cursor_row - viewport_height + 1
            } else {
                old(self).scroll_offset as int
            },
            viewport_height > 0 ==> final(self).scroll_offset <= final(self).cursor_row
                < final(self).scroll_offset + viewport_height,
            final(self).history() == old(self).history(),
            final(self).selection == old(self).selection,
            final(self).modified == old(self).modified,
            final(self).search_matches == old(self).search_matches,
            final(self).search_index == old(self).search_index,
            final(self).input_mode == old(self).input_mode,
    {
        let n = self.content.len();
        assert(self.cursor_row < n);
        if self.cursor_row < self.scroll_offset {
            self.scroll_offset = self.cursor_row;
        } else if self.cursor_row - self.scroll_offset >= viewport_height {
            self.scroll_offset = self.cursor_row - viewport_height + 1;
        }
    }

    /// Replaces the document with `lines` (one empty line where there are
    /// none), puts the cursor at the start and forgets history, selection and
    /// matches.
    pub fn load(&mut self, lines: Vec<Vec<char>>, modified: bool)
        ensures
            final(self).wf(),
            final(self).lines() == if lines@.len() == 0 {
                seq![Seq::<char>::empty()]
            } else {
                lines_view(lines@)
            },
            final(self).cursor_row == 0 && final(self).cursor_col == 0,
            final(self).modified == modified,
            final(self).scroll_offset == 0,
            final(self).undo_stack@.len() == 0 && final(self).redo_stack@.len() == 0,
            final(self).selection.is_none(),
            final(self).search_matches@.len() == 0,
            final(self).input_mode == old(self).input_mode,
    {
        let mut lines = lines;
        if lines.len() == 0 {
            lines.push(Vec::new());
            assert(lines_view(lines@) =~= seq![Seq::<char>::empty()]);
        }
        self.content = lines;
        self.cursor_row = 0;
        self.cursor_col = 0;
        self.modified = modified;
        self.scroll_offset = 0;
        self.undo_stack = Vec::new();
        self.redo_stack = Vec::new();
        self.selection = None;
        self.search_matches = Vec::new();
        self.search_index = 0;
    }

    /// Rebuilds the match list for the current query: every position at which
    /// the query starts, in document order, and makes the first match current.
    /// An empty query just clears the list.
    pub fn search(&mut self)
        requires
            old(self).wf(),
        ensures
            final(self).undo_stack == old(self).undo_stack,
            final(self).redo_stack == old(self).redo_stack,
            final(self).exit == old(self).exit,
            final(self).clipboard == old(self).clipboard,
            final(self).wf(),
            old(self).search_query@.len() == 0 ==> final(self).search_matches@.len() == 0
                && final(self).search_index == old(self).search_index,
            old(self).search_query@.len() > 0 ==> is_match_list(old(self).lines(), old(self).search_query@, final(self).search_matches@)
                && final(self).search_index == 0,
            final(self).history() == old(self).history(),
            final(self).search_query == old(self).search_query,
            final(self).selection == old(self).selection,
            final(self).modified == old(self).modified,
            final(self).input_mode == old(self).input_mode,
            final(self).input_buffer == old(self).input_buffer,
            final(self).scroll_offset == old(self).scroll_offset,
    {
        self.search_matches.clear();
        if self.search_query.len() == 0 {
            return;
        }
        self.search_matches = find_matches(&self.content, &self.search_query);
        self.search_index = 0;
    }

    /// Makes the next match current, wrapping round after the last, and puts
    /// the cursor on it (brought inside the document, should an edit since the
    /// search have moved the text). Nothing changes without matches.
    pub fn next_match(&mut self)
        requires
            old(self).wf(),
        ensures
            final(self).exit == old(self).exit,
            final(self).clipboard == old(self).clipboard,
            final(self).input_buffer == old(self).input_buffer,
            final(self).wf(),
            old(self).search_matches@.len() == 0 ==> *final(self) == *old(self),
            old(self).search_matches@.len() > 0 ==> {
                &&& final(self).search_index == next_index(old(self).search_index as int, old(self).search_matches@.len() as int)
                &&& final(self).cursor_row == clamp_row(old(self).lines(), old(self).search_matches@[final(self).search_index as int].0 as int)
                &&& final(self).cursor_col == clamp_col(old(self).lines(), final(self).cursor_row as int,
                    old(self).search_matches@[final(self).search_index as int].1 as int)
            },
            final(self).lines() == old(self).lines(),
            final(self).undo_stack == old(self).undo_stack,
            final(self).redo_stack == old(self).redo_stack,
            final(self).search_matches == old(self).search_matches,
            final(self).selection == old(self).selection,
            final(self).modified == old(self).modified,
            final(self).input_mode == old(self).input_mode,
    {
        if self.search_matches.len() > 0 {
            self.search_index = (self.search_index + 1) % self.search_matches.len();
            let (row, col) = self.search_matches[self.search_index];
            let p = self.clamp_position(row, col);
            self.cursor_row = p.0;
            self.cursor_col = p.1;
        }
    }

    /// Makes the previous match current, wrapping round from the first to the
    /// last, and puts the cursor on it as `next_match` does.
    pub fn prev_match(&mut self)
        requires
            old(self).wf(),
        ensures
            final(self).exit == old(self).exit,
            final(self).clipboard == old(self).clipboard,
            final(self).input_buffer == old(self).input_buffer,
            final(self).wf(),
            old(self).search_matches@.len() == 0 ==> *final(self) == *old(self),
            old(self).search_matches@.len() > 0 ==> {
                &&& final(self).search_index == prev_index(old(self).search_index as int, old(self).search_matches@.len() as int)
                &&& final(self).cursor_row == clamp_row(old(self).lines(), old(self).search_matches@[final(self).search_index as int].0 as int)
                &&& final(self).cursor_col == clamp_col(old(self).lines(), final(self).cursor_row as int,
                    old(self).search_matches@[final(self).search_index as int].1 as int)
            },
            final(self).lines() == old(self).lines(),
            final(self).undo_stack == old(self).undo_stack,
            final(self).redo_stack == old(self).redo_stack,
            final(self).search_matches == old(self).search_matches,
            final(self).selection == old(self).selection,
            final(self).modified == old(self).modified,
            final(self).input_mode == old(self).input_mode,
    {
        if self.search_matches.len() > 0 {
            self.search_index = if self.search_index == 0 {
                self.search_matches.len() - 1
            } else {
                self.search_index - 1
            };
            let (row, col) = self.search_matches[self.search_index];
            let p = self.clamp_position(row, col);
            self.cursor_row = p.0;
            self.cursor_col = p.1;
        }
    }

    /// Starts a selection with both ends at the cursor.
    pub fn start_selection(&mut self)
        requires
            old(self).wf(),
        ensures
            final(self).wf(),
            final(self).selection == Some(Selection {
                start_row: old(self).cursor_row,
                start_col: old(self).cursor_col,
                end_row: old(self).cursor_row,
                end_col: old(self).cursor_col,
            }),
            *final(self) == (App { selection: final(self).selection, ..*old(self) }),
    {
        self.selection = Some(Selection {
            start_row: self.cursor_row,
            start_col: self.cursor_col,
            end_row: self.cursor_row,
            end_col: self.cursor_col,
        });
    }

    /// Moves the live end of the selection, if there is one, to the cursor.
    pub fn update_selection(&mut self)
        requires
            old(self).wf(),
        ensures
            final(self).wf(),
            final(self).selection == match old(self).selection {
                Some(s) => Some(Selection { end_row: old(self).cursor_row, end_col: old(self).cursor_col, ..s }),
                None => None,
            },
            *final(self) == (App { selection: final(self).selection, ..*old(self) }),
    {
        if let Some(s) = self.selection {
            self.selection = Some(Selection { end_row: self.cursor_row, end_col: self.cursor_col, ..s });
        }
    }

    /// Drops the selection.
    pub fn clear_selection(&mut self)
        requires
            old(self).wf(),
        ensures
            final(self).wf(),
            *final(self) == (App { selection: None, ..*old(self) }),
    {
        self.selection = None;
    }

    /// The ends of `sel` in document order: `(lo_row, lo_col, hi_row, hi_col)`.
    pub fn normalize_selection(&self, sel: Selection) -> (r: (usize, usize, usize, usize))
        ensures
            r == normalized(sel),
    {
        if sel.start_row < sel.end_row || (sel.start_row == sel.end_row && sel.start_col <= sel.end_col) {
            (sel.start_row, sel.start_col, sel.end_row, sel.end_col)
        } else {
            (sel.end_row, sel.end_col, sel.start_row, sel.start_col)
        }
    }

    /// The selected text: the lines that the normalized selection spans, cut
    /// at its ends and joined by line breaks, with none after the last. Empty
    /// without a selection.
    pub fn get_selected_text(&self) -> (r: Vec<char>)
        requires
            self.wf(),
        ensures
            self.selection.is_none() ==> r@.len() == 0,
            self.selection matches Some(s) ==> r@ == range_text(
                self.lines(),
                normalized(s).0 as int,
                normalized(s).1 as int,
                normalized(s).2 as int,
                normalized(s).3 as int,
            ),
    {
        match self.selection {
            None => Vec::new(),
            Some(sel) => {
                let (sr, sc, er, ec) = self.normalize_selection(sel);
                let ghost doc = self.lines();
                let ghost pieces = range_pieces(doc, sr as int, sc as int, er as int, ec as int);
                assert(self.content@[sr as int]@ == doc[sr as int]);
                assert(self.content@[er as int]@ == doc[er as int]);
                let mut result: Vec<char> = Vec::new();
                if sr == er {
                    append_range(&mut result, &self.content[sr], sc, ec);
                    assert(result@ =~= doc[sr as int].subrange(sc as int, ec as int));
                    return result;
                }
                append_range(&mut result, &self.content[sr], sc, self.content[sr].len());
                assert(pieces.subrange(0, 1) =~= seq![pieces[0]]);
                assert(result@ =~= join_lines(pieces.subrange(0, 1)));
                let mut row: usize = sr + 1;
                while row < er
                    invariant
                        sr < row <= er,
                        er < self.content@.len(),
                        doc == self.lines(),
                        pieces == range_pieces(doc, sr as int, sc as int, er as int, ec as int),
                        pieces.len() == er - sr + 1,
                        result@ == join_lines(pieces.subrange(0, row - sr)),
                    decreases er - row,
                {
                    proof {
                        lemma_join_push(pieces, row - sr);
                        assert(pieces[row - sr] == doc[row as int]);
                    }
                    result.push('\n');
                    let n = self.content[row].len();
                    append_range(&mut result, &self.content[row], 0, n);
                    assert(self.content@[row as int]@.subrange(0, n as int) =~= doc[row as int]);
                    row = row + 1;
                    assert(result@ =~= join_lines(pieces.subrange(0, row - sr)));
                }
                proof {
                    lemma_join_push(pieces, er - sr);
                    assert(pieces.subrange(0, er - sr + 1) =~= pieces);
                }
                result.push('\n');
                append_range(&mut result, &self.content[er], 0, ec);
                assert(result@ =~= join_lines(pieces));
                result
            },
        }
    }

    /// Takes out the text from `(lo_row, lo_col)` up to `(hi_row, hi_col)`:
    /// the head of line `lo_row` is joined to the tail of line `hi_row`, the
    /// lines after `lo_row` up to `hi_row` go, and the cursor moves to
    /// `(lo_row, lo_col)`. History is left to the caller; a selection is kept
    /// where the document still holds it, else brought inside.
    pub fn delete_range(&mut self, lo_row: usize, lo_col: usize, hi_row: usize, hi_col: usize)
        requires
            old(self).wf(),
            old(self).valid(lo_row as int, lo_col as int),
            old(self).valid(hi_row as int, hi_col as int),
            pos_le(lo_row as int, lo_col as int, hi_row as int, hi_col as int),
        ensures
            final(self).same_aux(old(self)),
            final(self).wf(),
            final(self).lines() == delete_range_doc(old(self).lines(), lo_row as int, lo_col as int, hi_row as int, hi_col as int),
            final(self).cursor_row == lo_row && final(self).cursor_col == lo_col,
            final(self).undo_stack == old(self).undo_stack,
            final(self).redo_stack == old(self).redo_stack,
            final(self).selection.is_some() == old(self).selection.is_some(),
            final(self).modified == old(self).modified,
            final(self).search_matches == old(self).search_matches,
            final(self).search_index == old(self).search_index,
            final(self).input_mode == old(self).input_mode,
    {
        let ghost doc = old(self).lines();
        let ghost cv = self.content@;
        assert(cv[lo_row as int]@ == doc[lo_row as int]);
        assert(cv[hi_row as int]@ == doc[hi_row as int]);
        let mut new_line: Vec<char> = Vec::new();
        append_range(&mut new_line, &self.content[lo_row], 0, lo_col);
        let hl = self.content[hi_row].len();
        append_range(&mut new_line, &self.content[hi_row], hi_col, hl);
        let mut content: Vec<Vec<char>> = Vec::new();
        std::mem::swap(&mut content, &mut self.content);
        let mut k: usize = 0;
        while k < hi_row - lo_row
            invariant
                lo_row <= hi_row < cv.len(),
                k <= hi_row - lo_row,
                content@ == cv.subrange(0, lo_row + 1) + cv.subrange(lo_row + 1 + k, cv.len() as int),
            decreases hi_row - lo_row - k,
        {
            content.remove(lo_row + 1);
            k = k + 1;
            assert(content@ =~= cv.subrange(0, lo_row + 1) + cv.subrange(lo_row + 1 + k, cv.len() as int));
        }
        content[lo_row] = new_line;
        self.content = content;
        assert(self.lines() =~= delete_range_doc(doc, lo_row as int, lo_col as int, hi_row as int, hi_col as int));
        self.cursor_row = lo_row;
        self.cursor_col = lo_col;
        self.clamp_selection();
    }

    /// Takes out the selected text as one edit: the state before it goes on
    /// the undo stack, the cursor moves to the selection's first position and
    /// the selection ends. Nothing changes without a selection.
    pub fn delete_selection(&mut self)
        requires
            old(self).wf(),
        ensures
            final(self).same_aux(old(self)),
            final(self).wf(),
            old(self).selection.is_none() ==> *final(self) == *old(self),
            old(self).selection matches Some(s) ==> {
                let (lr, lc, hr, hc) = normalized(s);
                &&& final(self).lines() == delete_range_doc(old(self).lines(), lr as int, lc as int, hr as int, hc as int)
                &&& final(self).cursor_row == lr && final(self).cursor_col == lc
                &&& final(self).history() == record(old(self).history(), final(self).snap())
                &&& final(self).selection.is_none()
                &&& final(self).modified
            },
            final(self).search_matches == old(self).search_matches,
            final(self).search_index == old(self).search_index,
            final(self).input_mode == old(self).input_mode,
    {
        if let Some(sel) = self.selection {
            self.save_state();
            self.delete_selected_range();
        }
    }

    /// Takes out the selected text without touching history, for an edit
    /// that has already saved its state.
    pub(crate) fn delete_selected_range(&mut self)
        requires
            old(self).wf(),
            old(self).selection.is_some(),
        ensures
            final(self).same_aux(old(self)),
            final(self).wf(),
            old(self).selection matches Some(s) ==> {
                let (lr, lc, hr, hc) = normalized(s);
                &&& final(self).lines() == delete_range_doc(old(self).lines(), lr as int, lc as int, hr as int, hc as int)
                &&& final(self).cursor_row == lr && final(self).cursor_col == lc
            },
            final(self).undo_stack == old(self).undo_stack,
            final(self).redo_stack == old(self).redo_stack,
            final(self).selection.is_none(),
            final(self).modified,
            final(self).search_matches == old(self).search_matches,
            final(self).search_index == old(self).search_index,
            final(self).input_mode == old(self).input_mode,
    {
        if let Some(sel) = self.selection {
            let (sr, sc, er, ec) = self.normalize_selection(sel);
            self.delete_range(sr, sc, er, ec);
            self.selection = None;
            self.modified = true;
        }
    }

    /// Whether the character at `(row, col)` lies in the selection: at or
    /// after its first position and before its last.
    pub fn in_selection(&self, row: usize, col: usize) -> (r: bool)
        ensures
            r == (self.selection matches Some(s) && pos_le(normalized(s).0 as int, normalized(s).1 as int, row as int, col as int)
                && pos_lt(row as int, col as int, normalized(s).2 as int, normalized(s).3 as int)),
    {
        match self.selection {
            None => false,
            Some(sel) => {
                let (sr, sc, er, ec) = self.normalize_selection(sel);
                if row > sr && row < er {
                    true
                } else if row == sr && row == er {
                    col >= sc && col < ec
                } else if row == sr {
                    col >= sc
                } else if row == er {
                    col < ec
                } else {
                    false
                }
            },
        }
    }
}

} // verus!
