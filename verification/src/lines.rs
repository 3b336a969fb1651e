//! Splitting the checker's raw stdout into lines.
//!
//! A line ends at a line feed; a carriage return just before the line feed is
//! not part of the line. A final line without a terminator is kept as it
//! stands; a trailing terminator does not produce an empty final line.

use vstd::prelude::*;
use crate::bytes::subvec;

verus! {

/// First index at or after `i` holding a line feed, or the length.
pub open spec fn find_nl(s: Seq<u8>, i: int) -> int
    decreases s.len() - i,
{
    if i >= s.len() {
        s.len() as int
    } else if s[i] == 10 {
        i
    } else {
        find_nl(s, i + 1)
    }
}

pub proof fn lemma_find_nl_bounds(s: Seq<u8>, i: int)
    requires
        i <= s.len(),
    ensures
        i <= find_nl(s, i) <= s.len(),
    decreases s.len() - i,
{
    if i < s.len() && s[i] != 10 {
        lemma_find_nl_bounds(s, i + 1);
    }
}

/// The line starting at `i`, with a trailing carriage return removed when the
/// line was ended by a line feed.
pub open spec fn line_at(s: Seq<u8>, i: int) -> Seq<u8> {
    let j = find_nl(s, i);
    if j == s.len() {
        s.subrange(i, j)
    } else if j > i && s[j - 1] == 13 {
        s.subrange(i, j - 1)
    } else {
        s.subrange(i, j)
    }
}

/// The lines of `s` from position `i` on.
pub open spec fn lines_from(s: Seq<u8>, i: int) -> Seq<Seq<u8>>
    decreases s.len() - i,
    via lines_from_dec
{
    if i >= s.len() {
        Seq::empty()
    } else {
        let j = find_nl(s, i);
        if j == s.len() {
            seq![line_at(s, i)]
        } else {
            seq![line_at(s, i)] + lines_from(s, j + 1)
        }
    }
}

#[via_fn]
proof fn lines_from_dec(s: Seq<u8>, i: int) {
    if i < s.len() {
        lemma_find_nl_bounds(s, i);
    }
}

/// The lines of the whole report.
pub open spec fn spec_lines(s: Seq<u8>) -> Seq<Seq<u8>> {
    lines_from(s, 0)
}

/// Exec counterpart of `find_nl`.
fn find_newline(s: &Vec<u8>, i: usize) -> (r: usize)
    requires
        i <= s@.len(),
    ensures
        r as int == find_nl(s@, i as int),
        i <= r <= s@.len(),
{
    proof {
        lemma_find_nl_bounds(s@, i as int);
    }
    let mut j: usize = i;
    while j < s.len() && s[j] != 10
        invariant
            i <= j <= s@.len(),
            find_nl(s@, i as int) == find_nl(s@, j as int),
        decreases s@.len() - j,
    {
        j = j + 1;
    }
    j
}

/// Split the raw report into lines.
pub fn split_lines(s: &Vec<u8>) -> (r: Vec<Vec<u8>>)
    ensures
        r.deep_view() == spec_lines(s@),
{
    let mut out: Vec<Vec<u8>> = Vec::new();
    let mut pos: usize = 0;
    proof {
        assert(out.deep_view() =~= Seq::<Seq<u8>>::empty());
        assert(out.deep_view() + lines_from(s@, 0) =~= lines_from(s@, 0));
    }
    while pos < s.len()
        invariant
            pos <= s@.len(),
            lines_from(s@, 0) == out.deep_view() + lines_from(s@, pos as int),
        decreases s@.len() - pos,
    {
        let ghost old_out = out.deep_view();
        let j = find_newline(s, pos);
        let end: usize = if j < s.len() && j > pos && s[j - 1] == 13 {
            j - 1
        } else {
            j
        };
        let line = subvec(s, pos, end);
        proof {
            assert(line@ =~= line_at(s@, pos as int));
        }
        out.push(line);
        proof {
            assert(out.deep_view() =~~= old_out.push(line_at(s@, pos as int)));
        }
        if j < s.len() {
            proof {
                assert(lines_from(s@, pos as int) =~= seq![line_at(s@, pos as int)] + lines_from(
                    s@,
                    j as int + 1,
                ));
                assert(old_out + lines_from(s@, pos as int) =~= out.deep_view() + lines_from(
                    s@,
                    j as int + 1,
                ));
            }
            pos = j + 1;
        } else {
            proof {
                assert(lines_from(s@, pos as int) =~= seq![line_at(s@, pos as int)]);
                assert(lines_from(s@, j as int) =~= Seq::<Seq<u8>>::empty());
                assert(old_out + lines_from(s@, pos as int) =~= out.deep_view() + lines_from(
                    s@,
                    j as int,
                ));
            }
            pos = j;
        }
    }
    proof {
        assert(lines_from(s@, pos as int) =~= Seq::<Seq<u8>>::empty());
        assert(out.deep_view() + lines_from(s@, pos as int) =~= out.deep_view());
    }
    out
}

} // verus!
