use vstd::prelude::*;

verus! {

/// `(r1, c1)` comes no later than `(r2, c2)` in document order.
pub open spec fn pos_le(r1: int, c1: int, r2: int, c2: int) -> bool {
    r1 < r2 || (r1 == r2 && c1 <= c2)
}

/// `(r1, c1)` comes strictly before `(r2, c2)` in document order.
pub open spec fn pos_lt(r1: int, c1: int, r2: int, c2: int) -> bool {
    r1 < r2 || (r1 == r2 && c1 < c2)
}

/// A document always holds at least one line.
pub open spec fn doc_wf(doc: Seq<Seq<char>>) -> bool {
    doc.len() >= 1
}

/// `(r, c)` names a position of the document: a line, and a column up to
/// and including the end of that line.
pub open spec fn valid_pos(doc: Seq<Seq<char>>, r: int, c: int) -> bool {
    0 <= r < doc.len() && 0 <= c <= doc[r].len()
}

/// The lines held by a vector of lines, as sequences of characters.
pub open spec fn lines_view(v: Seq<Vec<char>>) -> Seq<Seq<char>> {
    Seq::new(v.len(), |i: int| v[i]@)
}

/// The lines joined by single line breaks, with no break after the last.
pub open spec fn join_lines(lines: Seq<Seq<char>>) -> Seq<char>
    decreases lines.len(),
{
    if lines.len() == 0 {
        Seq::empty()
    } else if lines.len() == 1 {
        lines[0]
    } else {
        join_lines(lines.drop_last()) + seq!['\n'] + lines.last()
    }
}

/// The segments of `t` between line breaks: one more than it holds breaks.
pub open spec fn split_lines(t: Seq<char>) -> Seq<Seq<char>>
    decreases t.len(),
{
    if t.len() == 0 {
        seq![Seq::<char>::empty()]
    } else {
        let rest = split_lines(t.drop_last());
        if t.last() == '\n' {
            rest.push(Seq::empty())
        } else {
            rest.update(rest.len() - 1, rest.last().push(t.last()))
        }
    }
}

/// The document after inserting `ch` at `(r, c)`.
pub open spec fn insert_doc(doc: Seq<Seq<char>>, r: int, c: int, ch: char) -> Seq<Seq<char>> {
    doc.update(r, doc[r].insert(c, ch))
}

/// The document after a forward delete at `(r, c)`: the character there
/// goes, or at the end of a line the next line joins it, or at the end of
/// the last line nothing changes.
pub open spec fn forward_delete_doc(doc: Seq<Seq<char>>, r: int, c: int) -> Seq<Seq<char>> {
    if c < doc[r].len() {
        doc.update(r, doc[r].remove(c))
    } else if r + 1 < doc.len() {
        doc.update(r, doc[r] + doc[r + 1]).remove(r + 1)
    } else {
        doc
    }
}

/// The document and cursor after a backward delete at `(r, c)`: the
/// character before goes, or at the start of a line it joins the previous
/// one, or at the start of the document nothing changes.
pub open spec fn backward_delete(doc: Seq<Seq<char>>, r: int, c: int) -> (Seq<Seq<char>>, int, int) {
    if c > 0 {
        (doc.update(r, doc[r].remove(c - 1)), r, c - 1)
    } else if r > 0 {
        (doc.update(r - 1, doc[r - 1] + doc[r]).remove(r), r - 1, doc[r - 1].len() as int)
    } else {
        (doc, r, c)
    }
}

/// The document after breaking line `r` at column `c`.
pub open spec fn split_doc(doc: Seq<Seq<char>>, r: int, c: int) -> Seq<Seq<char>> {
    doc.update(r, doc[r].subrange(0, c)).insert(r + 1, doc[r].subrange(c, doc[r].len() as int))
}

/// The lines that pasting the segments `pieces` between `head` and `tail`
/// makes: the first segment goes after `head`, the last before `tail`.
pub open spec fn paste_lines(head: Seq<char>, pieces: Seq<Seq<char>>, tail: Seq<char>) -> Seq<Seq<char>> {
    let ps = pieces.update(0, head + pieces[0]);
    ps.update(ps.len() - 1, ps.last() + tail)
}

/// The column at which the cursor stands after such a paste: the end of
/// the last segment, counted from the start of its line.
pub open spec fn paste_col(head: Seq<char>, pieces: Seq<Seq<char>>) -> int {
    pieces.update(0, head + pieces[0]).last().len() as int
}

/// The document with the text from `(lr, lc)` up to `(hr, hc)` taken out:
/// the head of line `lr` joined to the tail of line `hr`.
pub open spec fn delete_range_doc(
    doc: Seq<Seq<char>>,
    lr: int,
    lc: int,
    hr: int,
    hc: int,
) -> Seq<Seq<char>> {
    doc.subrange(0, lr).push(doc[lr].subrange(0, lc) + doc[hr].subrange(hc, doc[hr].len() as int))
        + doc.subrange(hr + 1, doc.len() as int)
}

/// The pieces of each line that the range from `(lr, lc)` up to `(hr, hc)` spans.
pub open spec fn range_pieces(
    doc: Seq<Seq<char>>,
    lr: int,
    lc: int,
    hr: int,
    hc: int,
) -> Seq<Seq<char>> {
    if lr == hr {
        seq![doc[lr].subrange(lc, hc)]
    } else {
        seq![doc[lr].subrange(lc, doc[lr].len() as int)] + doc.subrange(lr + 1, hr) + seq![
            doc[hr].subrange(0, hc),
        ]
    }
}

/// The text of the range from `(lr, lc)` up to `(hr, hc)`.
pub open spec fn range_text(doc: Seq<Seq<char>>, lr: int, lc: int, hr: int, hc: int) -> Seq<char> {
    join_lines(range_pieces(doc, lr, lc, hr, hc))
}

/// The row nearest to `r` that the document has.
pub open spec fn clamp_row(doc: Seq<Seq<char>>, r: int) -> int {
    if r < doc.len() {
        r
    } else {
        doc.len() - 1
    }
}

/// The column nearest to `c` on line `r`.
pub open spec fn clamp_col(doc: Seq<Seq<char>>, r: int, c: int) -> int {
    if c <= doc[r].len() {
        c
    } else {
        doc[r].len() as int
    }
}

/// `q` occurs in `line` starting at column `i`.
pub open spec fn occurs_at(line: Seq<char>, q: Seq<char>, i: int) -> bool {
    0 <= i && i + q.len() <= line.len() && line.subrange(i, i + q.len()) == q
}

/// Tests whether `q` occurs in `line` at column `i`.
pub fn occurs_at_exec(line: &Vec<char>, q: &Vec<char>, i: usize) -> (r: bool)
    ensures
        r == occurs_at(line@, q@, i as int),
{
    if i > line.len() || q.len() > line.len() - i {
        return false;
    }
    let mut k: usize = 0;
    while k < q.len()
        invariant
            i + q.len() <= line.len(),
            k <= q.len(),
            forall|j: int| 0 <= j < k ==> line@[i + j] == q@[j],
        decreases q.len() - k,
    {
        if line[i + k] != q[k] {
            assert(line@.subrange(i as int, i + q.len())[k as int] != q@[k as int]);
            return false;
        }
        k = k + 1;
    }
    assert(line@.subrange(i as int, i + q.len()) =~= q@);
    true
}

} // verus!
