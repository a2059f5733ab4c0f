use vstd::prelude::*;

use crate::app::App;
use crate::command::paste_snap;
use crate::text::{
    backward_delete, forward_delete_doc, insert_doc, lines_view, paste_col, paste_lines, split_doc,
    split_lines,
};

verus! {

proof fn lemma_split_push(t: Seq<char>, ch: char)
    ensures
        split_lines(t.push(ch)) == if ch == '\n' {
            split_lines(t).push(Seq::empty())
        } else {
            split_lines(t).update(split_lines(t).len() - 1, split_lines(t).last().push(ch))
        },
{
    assert(t.push(ch).drop_last() =~= t);
}

proof fn lemma_split_nonempty(t: Seq<char>)
    ensures
        split_lines(t).len() >= 1,
    decreases t.len(),
{
    if t.len() > 0 {
        lemma_split_nonempty(t.drop_last());
    }
}

/// The document buffer's edits. Each keeps the document and cursor valid,
/// leaves history to the caller and keeps or brings back inside a selection.
impl App {
    /// Inserts `c` at the cursor and moves the cursor past it.
    pub fn insert_char(&mut self, c: char)
        requires
            old(self).wf(),
        ensures
            final(self).wf(),
            final(self).same_aux(old(self)),
            final(self).lines() == insert_doc(old(self).lines(), old(self).cursor_row as int, old(self).cursor_col as int, c),
            final(self).cursor_row == old(self).cursor_row,
            final(self).cursor_col == old(self).cursor_col + 1,
            final(self).undo_stack == old(self).undo_stack,
            final(self).redo_stack == old(self).redo_stack,
            final(self).selection.is_some() == old(self).selection.is_some(),
            final(self).modified == old(self).modified,
            final(self).input_mode == old(self).input_mode,
    {
        let r = self.cursor_row;
        let col = self.cursor_col;
        self.content[r].insert(col, c);
        let n = self.content[r].len();
        assert(col < n);
        self.cursor_col = col + 1;
        assert(self.lines() =~= old(self).lines().update(r as int, old(self).lines()[r as int].insert(col as int, c)));
        self.clamp_selection();
    }

    /// Takes out the character under the cursor; at the end of a line, joins
    /// the next line onto it. Nothing changes at the end of the last line.
    pub fn delete_char_forward(&mut self)
        requires
            old(self).wf(),
        ensures
            final(self).wf(),
            final(self).same_aux(old(self)),
            final(self).lines() == forward_delete_doc(old(self).lines(), old(self).cursor_row as int, old(self).cursor_col as int),
            final(self).cursor_row == old(self).cursor_row,
            final(self).cursor_col == old(self).cursor_col,
            final(self).undo_stack == old(self).undo_stack,
            final(self).redo_stack == old(self).redo_stack,
            final(self).selection.is_some() == old(self).selection.is_some(),
            final(self).modified == old(self).modified,
            final(self).input_mode == old(self).input_mode,
    {
        let ghost doc = old(self).lines();
        let r = self.cursor_row;
        let col = self.cursor_col;
        let n = self.content.len();
        if col < self.content[r].len() {
            self.content[r].remove(col);
            assert(self.lines() =~= doc.update(r as int, doc[r as int].remove(col as int)));
        } else if r + 1 < n {
            let next = self.content.remove(r + 1);
            append_line(&mut self.content[r], &next);
            assert(self.lines() =~= doc.update(r as int, doc[r as int] + doc[r + 1]).remove(r + 1));
        }
        self.clamp_selection();
    }

    /// Takes out the character before the cursor and moves back over it; at
    /// the start of a line, joins the line onto the previous one and puts the
    /// cursor where that line ended. Nothing changes at the start of the
    /// first line.
    pub fn delete_char_backward(&mut self)
        requires
            old(self).wf(),
        ensures
            final(self).wf(),
            final(self).same_aux(old(self)),
            (final(self).lines(), final(self).cursor_row as int, final(self).cursor_col as int) == backward_delete(
                old(self).lines(),
                old(self).cursor_row as int,
                old(self).cursor_col as int,
            ),
            final(self).undo_stack == old(self).undo_stack,
            final(self).redo_stack == old(self).redo_stack,
            final(self).selection.is_some() == old(self).selection.is_some(),
            final(self).modified == old(self).modified,
            final(self).input_mode == old(self).input_mode,
    {
        let ghost doc = old(self).lines();
        let r = self.cursor_row;
        let col = self.cursor_col;
        if col > 0 {
            self.content[r].remove(col - 1);
            self.cursor_col = col - 1;
            assert(self.lines() =~= doc.update(r as int, doc[r as int].remove(col - 1)));
        } else if r > 0 {
            let cur = self.content.remove(r);
            let prev_len = self.content[r - 1].len();
            append_line(&mut self.content[r - 1], &cur);
            self.cursor_row = r - 1;
            self.cursor_col = prev_len;
            assert(self.lines() =~= doc.update(r - 1, doc[r - 1] + doc[r as int]).remove(r as int));
        }
        self.clamp_selection();
    }

    /// Breaks the line at the cursor and puts the cursor at the start of the
    /// new line that holds the rest.
    pub fn split_line(&mut self)
        requires
            old(self).wf(),
        ensures
            final(self).wf(),
            final(self).same_aux(old(self)),
            final(self).lines() == split_doc(old(self).lines(), old(self).cursor_row as int, old(self).cursor_col as int),
            final(self).cursor_row == old(self).cursor_row + 1,
            final(self).cursor_col == 0,
            final(self).undo_stack == old(self).undo_stack,
            final(self).redo_stack == old(self).redo_stack,
            final(self).selection.is_some() == old(self).selection.is_some(),
            final(self).modified == old(self).modified,
            final(self).input_mode == old(self).input_mode,
    {
        let ghost doc = old(self).lines();
        let r = self.cursor_row;
        let col = self.cursor_col;
        let n = self.content.len();
        let rest = self.content[r].split_off(col);
        self.content.insert(r + 1, rest);
        self.cursor_row = r + 1;
        self.cursor_col = 0;
        assert(self.lines() =~= doc.update(r as int, doc[r as int].subrange(0, col as int)).insert(
            r + 1,
            doc[r as int].subrange(col as int, doc[r as int].len() as int),
        ));
        self.clamp_selection();
    }

    /// Inserts `text` at the cursor: the segment before its first line break
    /// goes into the current line, each later segment starts a new line, and
    /// the rest of the current line follows the last segment. The cursor ends
    /// after the last segment.
    pub fn insert_text_block(&mut self, text: &Vec<char>)
        requires
            old(self).wf(),
        ensures
            final(self).wf(),
            final(self).same_aux(old(self)),
            final(self).snap() == paste_snap(old(self).snap(), text@),
            final(self).undo_stack == old(self).undo_stack,
            final(self).redo_stack == old(self).redo_stack,
            final(self).selection.is_some() == old(self).selection.is_some(),
            final(self).modified == old(self).modified,
            final(self).input_mode == old(self).input_mode,
    {
        let ghost doc = old(self).lines();
        let r = self.cursor_row;
        let col = self.cursor_col;
        let ghost head = doc[r as int].subrange(0, col as int);
        let ghost tail = doc[r as int].subrange(col as int, doc[r as int].len() as int);
        let mut content: Vec<Vec<char>> = Vec::new();
        std::mem::swap(&mut content, &mut self.content);
        let ghost cv = content@;
        assert(cv[r as int]@ == doc[r as int]);
        let n = content.len();
        let mut after = content.split_off(r + 1);
        let mut cur = content.pop().unwrap();
        assert(content@ =~= cv.subrange(0, r as int));
        let rest = cur.split_off(col);
        let mut done: Vec<Vec<char>> = Vec::new();
        let mut i: usize = 0;
        proof {
            lemma_split_nonempty(text@.subrange(0, 0));
            assert(text@.subrange(0, 0) =~= Seq::<char>::empty());
            assert(lines_view(done@).push(cur@) =~= split_lines(Seq::<char>::empty()).update(0, head + split_lines(Seq::<char>::empty())[0]));
        }
        while i < text.len()
            invariant
                i <= text@.len(),
                split_lines(text@.subrange(0, i as int)).len() >= 1,
                lines_view(done@).push(cur@) == ({
                    let ps = split_lines(text@.subrange(0, i as int));
                    ps.update(0, head + ps[0])
                }),
            decreases text@.len() - i,
        {
            let ch = text[i];
            proof {
                lemma_split_push(text@.subrange(0, i as int), ch);
                lemma_split_nonempty(text@.subrange(0, i as int));
                assert(text@.subrange(0, i + 1) =~= text@.subrange(0, i as int).push(ch));
            }
            let ghost ps0 = split_lines(text@.subrange(0, i as int));
            let ghost q0 = ps0.update(0, head + ps0[0]);
            assert(lines_view(done@) =~= q0.drop_last());
            assert(cur@ == q0.last());
            if ch == '\n' {
                let mut fresh: Vec<char> = Vec::new();
                std::mem::swap(&mut fresh, &mut cur);
                done.push(fresh);
                assert(lines_view(done@) =~= q0);
                let ghost ps1 = ps0.push(Seq::empty());
                assert(ps1[0] == ps0[0]);
                assert(lines_view(done@).push(cur@) =~= ps1.update(0, head + ps1[0]));
            } else {
                cur.push(ch);
                let ghost ps1 = ps0.update(ps0.len() - 1, ps0.last().push(ch));
                assert((head + ps0[0]).push(ch) =~= head + ps0[0].push(ch));
                assert(lines_view(done@).push(cur@) =~= ps1.update(0, head + ps1[0]));
            }
            i = i + 1;
            proof {
                lemma_split_nonempty(text@.subrange(0, i as int));
            }
        }
        let ghost pieces = split_lines(text@);
        assert(text@.subrange(0, text@.len() as int) =~= text@);
        let new_col = cur.len();
        append_line(&mut cur, &rest);
        done.push(cur);
        assert(lines_view(done@) =~= paste_lines(head, pieces, tail));
        let k = done.len();
        let ghost dv = done@;
        content.append(&mut done);
        content.append(&mut after);
        assert(lines_view(content@) =~= doc.subrange(0, r as int) + lines_view(dv) + doc.subrange(r + 1, doc.len() as int));
        let total = content.len();
        assert(r + k <= total);
        self.content = content;
        self.cursor_row = r + (k - 1);
        self.cursor_col = new_col;
        self.clamp_selection();
    }
}

/// Appends all of `src` to `dst`.
fn append_line(dst: &mut Vec<char>, src: &Vec<char>)
    ensures
        final(dst)@ == old(dst)@ + src@,
{
    let mut i: usize = 0;
    while i < src.len()
        invariant
            i <= src@.len(),
            dst@ == old(dst)@ + src@.subrange(0, i as int),
        decreases src@.len() - i,
    {
        dst.push(src[i]);
        i = i + 1;
        assert(dst@ =~= old(dst)@ + src@.subrange(0, i as int));
    }
    assert(src@.subrange(0, src@.len() as int) =~= src@);
}

} // verus!
