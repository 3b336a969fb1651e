//! The textual patterns recognized in a block's header and body lines.
//!
//! A header may carry a position in one of three shapes, tried on the first
//! position (left to right) where the shape matches:
//! - `line L, column C1 - C2` (single-line range),
//! - `line L1, column C1 - line L2, column C2` (cross-line range),
//! - `line L` (bare line number).
//! A body line may carry a parenthesized character offset `(char N)`.

use vstd::prelude::*;
use crate::bytes::{digit_run_end, is_digit, parse_u32, run_end};

verus! {

/// The literal `line ` stands at `i`.
pub open spec fn lit_line_at(s: Seq<u8>, i: int) -> bool {
    &&& 0 <= i
    &&& i + 5 <= s.len()
    &&& s[i] == 108
    &&& s[i + 1] == 105
    &&& s[i + 2] == 110
    &&& s[i + 3] == 101
    &&& s[i + 4] == 32
}

/// The literal `, column ` stands at `i`.
pub open spec fn lit_column_at(s: Seq<u8>, i: int) -> bool {
    &&& 0 <= i
    &&& i + 9 <= s.len()
    &&& s[i] == 44
    &&& s[i + 1] == 32
    &&& s[i + 2] == 99
    &&& s[i + 3] == 111
    &&& s[i + 4] == 108
    &&& s[i + 5] == 117
    &&& s[i + 6] == 109
    &&& s[i + 7] == 110
    &&& s[i + 8] == 32
}

/// The literal ` - ` stands at `i`.
pub open spec fn lit_dash_at(s: Seq<u8>, i: int) -> bool {
    &&& 0 <= i
    &&& i + 3 <= s.len()
    &&& s[i] == 32
    &&& s[i + 1] == 45
    &&& s[i + 2] == 32
}

/// The literal ` - line ` stands at `i`.
pub open spec fn lit_dash_line_at(s: Seq<u8>, i: int) -> bool {
    &&& 0 <= i
    &&& i + 8 <= s.len()
    &&& s[i] == 32
    &&& s[i + 1] == 45
    &&& s[i + 2] == 32
    &&& s[i + 3] == 108
    &&& s[i + 4] == 105
    &&& s[i + 5] == 110
    &&& s[i + 6] == 101
    &&& s[i + 7] == 32
}

/// The literal `(char ` stands at `i`.
pub open spec fn lit_char_open_at(s: Seq<u8>, i: int) -> bool {
    &&& 0 <= i
    &&& i + 6 <= s.len()
    &&& s[i] == 40
    &&& s[i + 1] == 99
    &&& s[i + 2] == 104
    &&& s[i + 3] == 97
    &&& s[i + 4] == 114
    &&& s[i + 5] == 32
}

/// The bare shape `line L` matches at `i`.
pub open spec fn match_bare_at(s: Seq<u8>, i: int) -> bool {
    &&& lit_line_at(s, i)
    &&& i + 5 < s.len()
    &&& is_digit(s[i + 5])
}

/// The single-line shape `line L, column C1 - C2` matches at `i`.
pub open spec fn match_single_at(s: Seq<u8>, i: int) -> bool {
    &&& match_bare_at(s, i)
    &&& {
        let e1 = digit_run_end(s, i + 5);
        &&& lit_column_at(s, e1)
        &&& e1 + 9 < s.len()
        &&& is_digit(s[e1 + 9])
        &&& {
            let e2 = digit_run_end(s, e1 + 9);
            &&& lit_dash_at(s, e2)
            &&& e2 + 3 < s.len()
            &&& is_digit(s[e2 + 3])
        }
    }
}

/// The cross-line shape `line L1, column C1 - line L2, column C2` matches at `i`.
pub open spec fn match_cross_at(s: Seq<u8>, i: int) -> bool {
    &&& match_bare_at(s, i)
    &&& {
        let e1 = digit_run_end(s, i + 5);
        &&& lit_column_at(s, e1)
        &&& e1 + 9 < s.len()
        &&& is_digit(s[e1 + 9])
        &&& {
            let e2 = digit_run_end(s, e1 + 9);
            &&& lit_dash_line_at(s, e2)
            &&& e2 + 8 < s.len()
            &&& is_digit(s[e2 + 8])
            &&& {
                let e3 = digit_run_end(s, e2 + 8);
                &&& lit_column_at(s, e3)
                &&& e3 + 9 < s.len()
                &&& is_digit(s[e3 + 9])
            }
        }
    }
}

/// The body marker `(char N)` matches at `i`.
pub open spec fn match_col_at(s: Seq<u8>, i: int) -> bool {
    &&& lit_char_open_at(s, i)
    &&& i + 6 < s.len()
    &&& is_digit(s[i + 6])
    &&& {
        let e = digit_run_end(s, i + 6);
        &&& e < s.len()
        &&& s[e] == 41
    }
}

/// Captured number of the bare shape at `i`.
pub open spec fn caps_bare(s: Seq<u8>, i: int) -> Option<u32> {
    parse_u32(s.subrange(i + 5, digit_run_end(s, i + 5)))
}

/// Captured numbers (L, C1, C2) of the single-line shape at `i`.
pub open spec fn caps_single(s: Seq<u8>, i: int) -> (Option<u32>, Option<u32>, Option<u32>) {
    let e1 = digit_run_end(s, i + 5);
    let e2 = digit_run_end(s, e1 + 9);
    let e3 = digit_run_end(s, e2 + 3);
    (
        parse_u32(s.subrange(i + 5, e1)),
        parse_u32(s.subrange(e1 + 9, e2)),
        parse_u32(s.subrange(e2 + 3, e3)),
    )
}

/// Captured numbers (L1, C1, L2, C2) of the cross-line shape at `i`.
pub open spec fn caps_cross(s: Seq<u8>, i: int) -> (
    Option<u32>,
    Option<u32>,
    Option<u32>,
    Option<u32>,
) {
    let e1 = digit_run_end(s, i + 5);
    let e2 = digit_run_end(s, e1 + 9);
    let e3 = digit_run_end(s, e2 + 8);
    let e4 = digit_run_end(s, e3 + 9);
    (
        parse_u32(s.subrange(i + 5, e1)),
        parse_u32(s.subrange(e1 + 9, e2)),
        parse_u32(s.subrange(e2 + 8, e3)),
        parse_u32(s.subrange(e3 + 9, e4)),
    )
}

/// Captured number of the `(char N)` marker at `i`.
pub open spec fn caps_col(s: Seq<u8>, i: int) -> Option<u32> {
    parse_u32(s.subrange(i + 6, digit_run_end(s, i + 6)))
}

/// Leftmost position at or after `i` where the single-line shape matches.
pub open spec fn first_single_from(s: Seq<u8>, i: int) -> Option<int>
    decreases s.len() - i,
{
    if i >= s.len() {
        None
    } else if match_single_at(s, i) {
        Some(i)
    } else {
        first_single_from(s, i + 1)
    }
}

/// Leftmost position at or after `i` where the cross-line shape matches.
pub open spec fn first_cross_from(s: Seq<u8>, i: int) -> Option<int>
    decreases s.len() - i,
{
    if i >= s.len() {
        None
    } else if match_cross_at(s, i) {
        Some(i)
    } else {
        first_cross_from(s, i + 1)
    }
}

/// Leftmost position at or after `i` where the bare shape matches.
pub open spec fn first_bare_from(s: Seq<u8>, i: int) -> Option<int>
    decreases s.len() - i,
{
    if i >= s.len() {
        None
    } else if match_bare_at(s, i) {
        Some(i)
    } else {
        first_bare_from(s, i + 1)
    }
}

/// Leftmost position at or after `i` where the `(char N)` marker matches.
pub open spec fn first_col_from(s: Seq<u8>, i: int) -> Option<int>
    decreases s.len() - i,
{
    if i >= s.len() {
        None
    } else if match_col_at(s, i) {
        Some(i)
    } else {
        first_col_from(s, i + 1)
    }
}

pub proof fn lemma_first_single_found(s: Seq<u8>, i: int)
    requires
        0 <= i,
        first_single_from(s, i) is Some,
    ensures
        i <= first_single_from(s, i)->Some_0 < s.len(),
        match_single_at(s, first_single_from(s, i)->Some_0),
    decreases s.len() - i,
{
    if i < s.len() && !match_single_at(s, i) {
        lemma_first_single_found(s, i + 1);
    }
}

pub proof fn lemma_first_cross_found(s: Seq<u8>, i: int)
    requires
        0 <= i,
        first_cross_from(s, i) is Some,
    ensures
        i <= first_cross_from(s, i)->Some_0 < s.len(),
        match_cross_at(s, first_cross_from(s, i)->Some_0),
    decreases s.len() - i,
{
    if i < s.len() && !match_cross_at(s, i) {
        lemma_first_cross_found(s, i + 1);
    }
}

pub proof fn lemma_first_bare_found(s: Seq<u8>, i: int)
    requires
        0 <= i,
        first_bare_from(s, i) is Some,
    ensures
        i <= first_bare_from(s, i)->Some_0 < s.len(),
        match_bare_at(s, first_bare_from(s, i)->Some_0),
    decreases s.len() - i,
{
    if i < s.len() && !match_bare_at(s, i) {
        lemma_first_bare_found(s, i + 1);
    }
}

pub proof fn lemma_first_col_found(s: Seq<u8>, i: int)
    requires
        0 <= i,
        first_col_from(s, i) is Some,
    ensures
        i <= first_col_from(s, i)->Some_0 < s.len(),
        match_col_at(s, first_col_from(s, i)->Some_0),
    decreases s.len() - i,
{
    if i < s.len() && !match_col_at(s, i) {
        lemma_first_col_found(s, i + 1);
    }
}

/// Whether the literal `line ` stands at `i`, executably.
fn check_line_lit(s: &Vec<u8>, i: usize) -> (r: bool)
    requires
        i <= s@.len(),
    ensures
        r == lit_line_at(s@, i as int),
{
    s.len() - i >= 5 && s[i] == 108 && s[i + 1] == 105 && s[i + 2] == 110 && s[i + 3] == 101
        && s[i + 4] == 32
}

/// Whether the literal `, column ` stands at `i`, executably.
fn check_column_lit(s: &Vec<u8>, i: usize) -> (r: bool)
    requires
        i <= s@.len(),
    ensures
        r == lit_column_at(s@, i as int),
{
    s.len() - i >= 9 && s[i] == 44 && s[i + 1] == 32 && s[i + 2] == 99 && s[i + 3] == 111 && s[i
        + 4] == 108 && s[i + 5] == 117 && s[i + 6] == 109 && s[i + 7] == 110 && s[i + 8] == 32
}

/// Whether the literal ` - ` stands at `i`, executably.
fn check_dash_lit(s: &Vec<u8>, i: usize) -> (r: bool)
    requires
        i <= s@.len(),
    ensures
        r == lit_dash_at(s@, i as int),
{
    s.len() - i >= 3 && s[i] == 32 && s[i + 1] == 45 && s[i + 2] == 32
}

/// Whether the literal ` - line ` stands at `i`, executably.
fn check_dash_line_lit(s: &Vec<u8>, i: usize) -> (r: bool)
    requires
        i <= s@.len(),
    ensures
        r == lit_dash_line_at(s@, i as int),
{
    s.len() - i >= 8 && s[i] == 32 && s[i + 1] == 45 && s[i + 2] == 32 && s[i + 3] == 108 && s[i
        + 4] == 105 && s[i + 5] == 110 && s[i + 6] == 101 && s[i + 7] == 32
}

/// Whether the literal `(char ` stands at `i`, executably.
fn check_char_open_lit(s: &Vec<u8>, i: usize) -> (r: bool)
    requires
        i <= s@.len(),
    ensures
        r == lit_char_open_at(s@, i as int),
{
    s.len() - i >= 6 && s[i] == 40 && s[i + 1] == 99 && s[i + 2] == 104 && s[i + 3] == 97 && s[i
        + 4] == 114 && s[i + 5] == 32
}

/// Whether the bare shape matches at `i`, executably.
fn is_bare_at(s: &Vec<u8>, i: usize) -> (r: bool)
    requires
        i <= s@.len(),
    ensures
        r == match_bare_at(s@, i as int),
{
    check_line_lit(s, i) && s.len() - i >= 6 && s[i + 5] >= 48 && s[i + 5] <= 57
}

/// Whether the single-line shape matches at `i`, executably.
fn is_single_at(s: &Vec<u8>, i: usize) -> (r: bool)
    requires
        i <= s@.len(),
    ensures
        r == match_single_at(s@, i as int),
{
    if !is_bare_at(s, i) {
        return false;
    }
    let n: usize = s.len();
    proof {
        assert(i + 5 < n as int);
    }
    let e1 = run_end(s, i + 5);
    if !check_column_lit(s, e1) {
        return false;
    }
    if s.len() - e1 < 10 || !(s[e1 + 9] >= 48 && s[e1 + 9] <= 57) {
        return false;
    }
    let e2 = run_end(s, e1 + 9);
    if !check_dash_lit(s, e2) {
        return false;
    }
    s.len() - e2 >= 4 && s[e2 + 3] >= 48 && s[e2 + 3] <= 57
}

/// Whether the cross-line shape matches at `i`, executably.
fn is_cross_at(s: &Vec<u8>, i: usize) -> (r: bool)
    requires
        i <= s@.len(),
    ensures
        r == match_cross_at(s@, i as int),
{
    if !is_bare_at(s, i) {
        return false;
    }
    let n: usize = s.len();
    proof {
        assert(i + 5 < n as int);
    }
    let e1 = run_end(s, i + 5);
    if !check_column_lit(s, e1) {
        return false;
    }
    if s.len() - e1 < 10 || !(s[e1 + 9] >= 48 && s[e1 + 9] <= 57) {
        return false;
    }
    let e2 = run_end(s, e1 + 9);
    if !check_dash_line_lit(s, e2) {
        return false;
    }
    if s.len() - e2 < 9 || !(s[e2 + 8] >= 48 && s[e2 + 8] <= 57) {
        return false;
    }
    let e3 = run_end(s, e2 + 8);
    if !check_column_lit(s, e3) {
        return false;
    }
    s.len() - e3 >= 10 && s[e3 + 9] >= 48 && s[e3 + 9] <= 57
}

/// Whether the `(char N)` marker matches at `i`, executably.
fn is_col_at(s: &Vec<u8>, i: usize) -> (r: bool)
    requires
        i <= s@.len(),
    ensures
        r == match_col_at(s@, i as int),
{
    if !(check_char_open_lit(s, i) && s.len() - i >= 7 && s[i + 6] >= 48 && s[i + 6] <= 57) {
        return false;
    }
    let e = run_end(s, i + 6);
    e < s.len() && s[e] == 41
}

/// Leftmost match of the single-line shape, executably.
pub fn find_single(s: &Vec<u8>) -> (r: Option<usize>)
    ensures
        match r {
            Some(i) => first_single_from(s@, 0) == Some(i as int),
            None => first_single_from(s@, 0) is None,
        },
{
    let mut j: usize = 0;
    while j < s.len()
        invariant
            j <= s@.len(),
            first_single_from(s@, 0) == first_single_from(s@, j as int),
        decreases s@.len() - j,
    {
        if is_single_at(s, j) {
            return Some(j);
        }
        j = j + 1;
    }
    None
}

/// Leftmost match of the cross-line shape, executably.
pub fn find_cross(s: &Vec<u8>) -> (r: Option<usize>)
    ensures
        match r {
            Some(i) => first_cross_from(s@, 0) == Some(i as int),
            None => first_cross_from(s@, 0) is None,
        },
{
    let mut j: usize = 0;
    while j < s.len()
        invariant
            j <= s@.len(),
            first_cross_from(s@, 0) == first_cross_from(s@, j as int),
        decreases s@.len() - j,
    {
        if is_cross_at(s, j) {
            return Some(j);
        }
        j = j + 1;
    }
    None
}

/// Leftmost match of the bare shape, executably.
pub fn find_bare(s: &Vec<u8>) -> (r: Option<usize>)
    ensures
        match r {
            Some(i) => first_bare_from(s@, 0) == Some(i as int),
            None => first_bare_from(s@, 0) is None,
        },
{
    let mut j: usize = 0;
    while j < s.len()
        invariant
            j <= s@.len(),
            first_bare_from(s@, 0) == first_bare_from(s@, j as int),
        decreases s@.len() - j,
    {
        if is_bare_at(s, j) {
            return Some(j);
        }
        j = j + 1;
    }
    None
}

/// Leftmost match of the `(char N)` marker, executably.
pub fn find_col(s: &Vec<u8>) -> (r: Option<usize>)
    ensures
        match r {
            Some(i) => first_col_from(s@, 0) == Some(i as int),
            None => first_col_from(s@, 0) is None,
        },
{
    let mut j: usize = 0;
    while j < s.len()
        invariant
            j <= s@.len(),
            first_col_from(s@, 0) == first_col_from(s@, j as int),
        decreases s@.len() - j,
    {
        if is_col_at(s, j) {
            return Some(j);
        }
        j = j + 1;
    }
    None
}

} // verus!
