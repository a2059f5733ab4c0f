use vstd::prelude::*;

use crate::app::App;
use crate::text::{clamp_col, clamp_row};

verus! {

/// Every character of `s` is a decimal digit.
pub open spec fn all_digits(s: Seq<char>) -> bool {
    forall|i: int| 0 <= i < s.len() ==> '0' <= #[trigger] s[i] <= '9'
}

/// The number that the decimal digits `s` write, most significant first.
pub open spec fn digits_value(s: Seq<char>) -> int
    decreases s.len(),
{
    if s.len() == 0 {
        0
    } else {
        10 * digits_value(s.drop_last()) + (s.last() as int - '0' as int)
    }
}

proof fn lemma_digits_value_nonneg(s: Seq<char>)
    requires
        all_digits(s),
    ensures
        digits_value(s) >= 0,
    decreases s.len(),
{
    if s.len() > 0 {
        lemma_digits_value_nonneg(s.drop_last());
    }
}

proof fn lemma_digits_value_grows(s: Seq<char>, i: int)
    requires
        all_digits(s),
        0 <= i <= s.len(),
    ensures
        digits_value(s.subrange(0, i)) <= digits_value(s),
    decreases s.len() - i,
{
    if i < s.len() {
        lemma_digits_value_grows(s, i + 1);
        assert(s.subrange(0, i + 1).drop_last() =~= s.subrange(0, i));
        lemma_digits_value_nonneg(s.subrange(0, i));
    } else {
        assert(s.subrange(0, i) =~= s);
    }
}

/// Reads a line number typed as decimal digits. `None` where `digits` is
/// empty, holds anything but a digit, or names a number beyond `usize`.
pub fn parse_line_number(digits: &Vec<char>) -> (r: Option<usize>)
    ensures
        r.is_some() <==> digits@.len() > 0 && all_digits(digits@) && digits_value(digits@) <= usize::MAX,
        r matches Some(n) ==> n == digits_value(digits@),
{
    if digits.len() == 0 {
        return None;
    }
    let mut v: usize = 0;
    let mut i: usize = 0;
    while i < digits.len()
        invariant
            i <= digits@.len(),
            all_digits(digits@.subrange(0, i as int)),
            v == digits_value(digits@.subrange(0, i as int)),
        decreases digits@.len() - i,
    {
        let ch = digits[i];
        proof {
            assert(digits@.subrange(0, i + 1).drop_last() =~= digits@.subrange(0, i as int));
        }
        if ch < '0' || ch > '9' {
            proof {
                assert(!all_digits(digits@));
            }
            return None;
        }
        let d = (ch as u32 - '0' as u32) as usize;
        match v.checked_mul(10) {
            None => {
                proof {
                    assert(all_digits(digits@.subrange(0, i + 1)));
                    lemma_digits_value_nonneg(digits@.subrange(0, i as int));
                    if all_digits(digits@) {
                        lemma_digits_value_grows(digits@, i + 1);
                    }
                }
                return None;
            },
            Some(t) => match t.checked_add(d) {
                None => {
                    proof {
                        assert(all_digits(digits@.subrange(0, i + 1)));
                        if all_digits(digits@) {
                            lemma_digits_value_grows(digits@, i + 1);
                        }
                    }
                    return None;
                },
                Some(w) => {
                    v = w;
                },
            },
        }
        i = i + 1;
        assert(all_digits(digits@.subrange(0, i as int)));
    }
    assert(digits@.subrange(0, digits@.len() as int) =~= digits@);
    Some(v)
}

/// Cursor movement. None of these touches the document, the selection or
/// history.
impl App {
    /// One line up, keeping the column where that line is long enough.
    /// Nothing changes on the first line.
    pub fn move_up(&mut self)
        requires
            old(self).wf(),
        ensures
            final(self).wf(),
            *final(self) == (App { cursor_row: final(self).cursor_row, cursor_col: final(self).cursor_col, ..*old(self) }),
            old(self).cursor_row == 0 ==> final(self).cursor_row == 0 && final(self).cursor_col == old(self).cursor_col,
            old(self).cursor_row > 0 ==> final(self).cursor_row == old(self).cursor_row - 1
                && final(self).cursor_col == clamp_col(old(self).lines(), old(self).cursor_row - 1, old(self).cursor_col as int),
    {
        if self.cursor_row > 0 {
            let r = self.cursor_row - 1;
            let len = self.content[r].len();
            self.cursor_row = r;
            if self.cursor_col > len {
                self.cursor_col = len;
            }
        }
    }

    /// One line down, keeping the column where that line is long enough.
    /// Nothing changes on the last line.
    pub fn move_down(&mut self)
        requires
            old(self).wf(),
        ensures
            final(self).wf(),
            *final(self) == (App { cursor_row: final(self).cursor_row, cursor_col: final(self).cursor_col, ..*old(self) }),
            old(self).cursor_row + 1 == old(self).lines().len() ==> final(self).cursor_row == old(self).cursor_row
                && final(self).cursor_col == old(self).cursor_col,
            old(self).cursor_row + 1 < old(self).lines().len() ==> final(self).cursor_row == old(self).cursor_row + 1
                && final(self).cursor_col == clamp_col(old(self).lines(), old(self).cursor_row + 1, old(self).cursor_col as int),
    {
        let n = self.content.len();
        if self.cursor_row + 1 < n {
            let r = self.cursor_row + 1;
            let len = self.content[r].len();
            self.cursor_row = r;
            if self.cursor_col > len {
                self.cursor_col = len;
            }
        }
    }

    /// One character left; from the start of a line, to the end of the
    /// previous one. Nothing changes at the start of the document.
    pub fn move_left(&mut self)
        requires
            old(self).wf(),
        ensures
            final(self).wf(),
            *final(self) == (App { cursor_row: final(self).cursor_row, cursor_col: final(self).cursor_col, ..*old(self) }),
            old(self).cursor_col > 0 ==> final(self).cursor_row == old(self).cursor_row
                && final(self).cursor_col == old(self).cursor_col - 1,
            old(self).cursor_col == 0 && old(self).cursor_row > 0 ==> final(self).cursor_row == old(self).cursor_row - 1
                && final(self).cursor_col == old(self).lines()[old(self).cursor_row - 1].len(),
            old(self).cursor_col == 0 && old(self).cursor_row == 0 ==> final(self).cursor_row == 0
                && final(self).cursor_col == 0,
    {
        if self.cursor_col > 0 {
            self.cursor_col = self.cursor_col - 1;
        } else if self.cursor_row > 0 {
            self.cursor_row = self.cursor_row - 1;
            self.cursor_col = self.content[self.cursor_row].len();
        }
    }

    /// One character right; from the end of a line, to the start of the next
    /// one. Nothing changes at the end of the document.
    pub fn move_right(&mut self)
        requires
            old(self).wf(),
        ensures
            final(self).wf(),
            *final(self) == (App { cursor_row: final(self).cursor_row, cursor_col: final(self).cursor_col, ..*old(self) }),
            ({
                let doc = old(self).lines();
                let r = old(self).cursor_row as int;
                let c = old(self).cursor_col as int;
                if c < doc[r].len() {
                    final(self).cursor_row == r && final(self).cursor_col == c + 1
                } else if r + 1 < doc.len() {
                    final(self).cursor_row == r + 1 && final(self).cursor_col == 0
                } else {
                    final(self).cursor_row == r && final(self).cursor_col == c
                }
            }),
    {
        let n = self.content.len();
        let len = self.content[self.cursor_row].len();
        if self.cursor_col < len {
            self.cursor_col = self.cursor_col + 1;
        } else if self.cursor_row + 1 < n {
            self.cursor_row = self.cursor_row + 1;
            self.cursor_col = 0;
        }
    }

    /// To the start of the line.
    pub fn move_home(&mut self)
        requires
            old(self).wf(),
        ensures
            final(self).wf(),
            *final(self) == (App { cursor_col: 0, ..*old(self) }),
    {
        self.cursor_col = 0;
    }

    /// To the end of the line.
    pub fn move_end(&mut self)
        requires
            old(self).wf(),
        ensures
            final(self).wf(),
            *final(self) == (App { cursor_col: old(self).lines()[old(self).cursor_row as int].len() as usize, ..*old(self) }),
    {
        self.cursor_col = self.content[self.cursor_row].len();
    }

    /// `height` lines up, stopping at the first line, keeping the column
    /// where the line is long enough.
    pub fn page_up(&mut self, height: usize)
        requires
            old(self).wf(),
        ensures
            final(self).wf(),
            *final(self) == (App { cursor_row: final(self).cursor_row, cursor_col: final(self).cursor_col, ..*old(self) }),
            final(self).cursor_row == if old(self).cursor_row >= height { old(self).cursor_row - height } else { 0 },
            final(self).cursor_col == clamp_col(old(self).lines(), final(self).cursor_row as int, old(self).cursor_col as int),
    {
        let r = if self.cursor_row >= height { self.cursor_row - height } else { 0 };
        let len = self.content[r].len();
        self.cursor_row = r;
        if self.cursor_col > len {
            self.cursor_col = len;
        }
    }

    /// `height` lines down, stopping at the last line, keeping the column
    /// where the line is long enough.
    pub fn page_down(&mut self, height: usize)
        requires
            old(self).wf(),
        ensures
            final(self).wf(),
            *final(self) == (App { cursor_row: final(self).cursor_row, cursor_col: final(self).cursor_col, ..*old(self) }),
            final(self).cursor_row == clamp_row(old(self).lines(), old(self).cursor_row + height),
            final(self).cursor_col == clamp_col(old(self).lines(), final(self).cursor_row as int, old(self).cursor_col as int),
    {
        let n = self.content.len();
        let r = if height < n - self.cursor_row { self.cursor_row + height } else { n - 1 };
        let len = self.content[r].len();
        self.cursor_row = r;
        if self.cursor_col > len {
            self.cursor_col = len;
        }
    }

    /// Puts the cursor at `(row, col)`, brought inside the document: to the
    /// last line for a row past it, to the line's end for a column past it.
    pub fn place_cursor(&mut self, row: usize, col: usize)
        requires
            old(self).wf(),
        ensures
            final(self).wf(),
            *final(self) == (App { cursor_row: final(self).cursor_row, cursor_col: final(self).cursor_col, ..*old(self) }),
            final(self).cursor_row == clamp_row(old(self).lines(), row as int),
            final(self).cursor_col == clamp_col(old(self).lines(), final(self).cursor_row as int, col as int),
    {
        let p = self.clamp_position(row, col);
        self.cursor_row = p.0;
        self.cursor_col = p.1;
    }

    /// Puts the cursor at the start of line `number`, counted from 1, or of
    /// the nearest line that the document has.
    pub fn go_to_line(&mut self, number: usize)
        requires
            old(self).wf(),
        ensures
            final(self).wf(),
            *final(self) == (App { cursor_row: final(self).cursor_row, cursor_col: 0, ..*old(self) }),
            final(self).cursor_row == clamp_row(old(self).lines(), if number > 0 { number - 1 } else { 0 }),
    {
        let target = if number > 0 { number - 1 } else { 0 };
        let p = self.clamp_position(target, 0);
        self.cursor_row = p.0;
        self.cursor_col = 0;
    }
}

} // verus!
