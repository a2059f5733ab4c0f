use vstd::prelude::*;
use vstd::arithmetic::div_mod::{lemma_add_mod_noop, lemma_small_mod};

use crate::text::{occurs_at, occurs_at_exec, pos_lt};

verus! {

/// `m` lists, in strictly increasing document order, exactly the positions
/// at which `q` starts in `doc`.
pub open spec fn is_match_list(doc: Seq<Seq<char>>, q: Seq<char>, m: Seq<(usize, usize)>) -> bool {
    &&& forall|k: int|
        0 <= k < m.len() ==> 0 <= (#[trigger] m[k]).0 < doc.len() && occurs_at(doc[m[k].0 as int], q, m[k].1 as int)
    &&& forall|k: int, j: int|
        #![trigger m[k], m[j]]
        0 <= k < j < m.len() ==> pos_lt(m[k].0 as int, m[k].1 as int, m[j].0 as int, m[j].1 as int)
    &&& forall|r: int, c: int|
        0 <= r < doc.len() && #[trigger] occurs_at(doc[r], q, c) ==> m.contains((r as usize, c as usize))
}

/// The match after `i` in a list of `n`, wrapping round to the first.
pub open spec fn next_index(i: int, n: int) -> int {
    (i + 1) % n
}

/// The match before `i` in a list of `n`, wrapping round to the last.
pub open spec fn prev_index(i: int, n: int) -> int {
    if i == 0 {
        n - 1
    } else {
        i - 1
    }
}

/// Where `k` steps forward from `i` lead in a list of `n` matches.
pub open spec fn advance(i: int, n: int, k: nat) -> int
    decreases k,
{
    if k == 0 {
        i
    } else {
        next_index(advance(i, n, (k - 1) as nat), n)
    }
}

proof fn lemma_advance_mod(i: int, n: int, k: nat)
    requires
        0 <= i < n,
    ensures
        advance(i, n, k) == (i + k) % n,
    decreases k,
{
    if k == 0 {
        lemma_small_mod(i as nat, n as nat);
    } else {
        lemma_advance_mod(i, n, (k - 1) as nat);
        lemma_add_mod_noop(i + k - 1, 1, n);
        lemma_add_mod_noop(i + k - 1, 0, n);
        if n > 1 {
            lemma_small_mod(1, n as nat);
        }
        assert((((i + k - 1) % n) + 1) % n == (i + k) % n) by {
            lemma_add_mod_noop((i + k - 1) % n, 0, n);
            lemma_add_mod_noop(i + k - 1, 1, n);
            if n > 1 {
                lemma_small_mod(1, n as nat);
                assert(((i + k - 1) % n) % n == (i + k - 1) % n) by {
                    lemma_small_mod(((i + k - 1) % n) as nat, n as nat);
                }
            } else {
                assert(n == 1);
                assert((i + k) % 1 == 0);
                assert((((i + k - 1) % n) + 1) % 1 == 0);
            }
        }
    }
}

/// Stepping to the next match as many times as there are matches comes back
/// to the match one started from.
pub proof fn lemma_next_match_cycle(i: int, n: int)
    requires
        0 <= i < n,
    ensures
        advance(i, n, n as nat) == i,
{
    lemma_advance_mod(i, n, n as nat);
    lemma_add_mod_noop(i, n, n);
    lemma_small_mod(i as nat, n as nat);
    assert(n % n == 0) by {
        lemma_add_mod_noop(0, n, n);
        lemma_small_mod(0, n as nat);
    }
    assert((i + 0) % n == i);
}

/// Stepping back from the first match lands on the last.
pub proof fn lemma_prev_from_first(n: int)
    requires
        n > 0,
    ensures
        prev_index(0, n) == n - 1,
{
}

proof fn lemma_push_contains(s: Seq<(usize, usize)>, x: (usize, usize), y: (usize, usize))
    requires
        s.contains(y),
    ensures
        s.push(x).contains(y),
{
    let k = choose|k: int| 0 <= k < s.len() && s[k] == y;
    assert(s.push(x)[k] == y);
}

/// The positions at which `q` starts in `doc`, in document order; a match
/// at a column is followed by a search from the next column, so matches may
/// overlap.
pub fn find_matches(doc: &Vec<Vec<char>>, q: &Vec<char>) -> (m: Vec<(usize, usize)>)
    requires
        q@.len() > 0,
    ensures
        is_match_list(crate::text::lines_view(doc@), q@, m@),
{
    let ghost lines = crate::text::lines_view(doc@);
    let mut m: Vec<(usize, usize)> = Vec::new();
    let mut row: usize = 0;
    while row < doc.len()
        invariant
            lines == crate::text::lines_view(doc@),
            q@.len() > 0,
            row <= doc@.len(),
            forall|k: int|
                0 <= k < m@.len() ==> 0 <= (#[trigger] m@[k]).0 < lines.len() && occurs_at(lines[m@[k].0 as int], q@, m@[k].1 as int),
            forall|k: int, j: int|
                #![trigger m@[k], m@[j]]
                0 <= k < j < m@.len() ==> pos_lt(m@[k].0 as int, m@[k].1 as int, m@[j].0 as int, m@[j].1 as int),
            forall|k: int| 0 <= k < m@.len() ==> (#[trigger] m@[k]).0 < row,
            forall|r: int, c: int|
                0 <= r < row && #[trigger] occurs_at(lines[r], q@, c) ==> m@.contains((r as usize, c as usize)),
        decreases doc@.len() - row,
    {
        let line = &doc[row];
        assert(line@ == lines[row as int]);
        let mut col: usize = 0;
        while col < line.len()
            invariant
                lines == crate::text::lines_view(doc@),
                line@ == lines[row as int],
                q@.len() > 0,
                row < doc@.len(),
                col <= line@.len(),
                forall|k: int|
                    0 <= k < m@.len() ==> 0 <= (#[trigger] m@[k]).0 < lines.len() && occurs_at(lines[m@[k].0 as int], q@, m@[k].1 as int),
                forall|k: int, j: int|
                    #![trigger m@[k], m@[j]]
                    0 <= k < j < m@.len() ==> pos_lt(m@[k].0 as int, m@[k].1 as int, m@[j].0 as int, m@[j].1 as int),
                forall|k: int| 0 <= k < m@.len() ==> pos_lt((#[trigger] m@[k]).0 as int, m@[k].1 as int, row as int, col as int),
                forall|r: int, c: int|
                    0 <= r < row && #[trigger] occurs_at(lines[r], q@, c) ==> m@.contains((r as usize, c as usize)),
                forall|c: int|
                    0 <= c < col && #[trigger] occurs_at(lines[row as int], q@, c) ==> m@.contains((row, c as usize)),
            decreases line@.len() - col,
        {
            if occurs_at_exec(line, q, col) {
                let ghost old_m = m@;
                m.push((row, col));
                proof {
                    assert forall|r: int, c: int|
                        0 <= r < row && #[trigger] occurs_at(lines[r], q@, c) implies m@.contains((r as usize, c as usize)) by {
                        lemma_push_contains(old_m, (row, col), (r as usize, c as usize));
                    }
                    assert forall|c: int|
                        0 <= c <= col && #[trigger] occurs_at(lines[row as int], q@, c) implies m@.contains((row, c as usize)) by {
                        if c < col {
                            lemma_push_contains(old_m, (row, col), (row, c as usize));
                        } else {
                            assert(m@[old_m.len() as int] == (row, col));
                        }
                    }
                }
            }
            col = col + 1;
        }
        proof {
            assert forall|c: int| #[trigger] occurs_at(lines[row as int], q@, c) implies m@.contains((row, c as usize)) by {
                assert(c < col);
            }
        }
        row = row + 1;
    }
    m
}

} // verus!
