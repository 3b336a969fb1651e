//! Byte-level helpers shared by the report scanner: digit runs, decimal
//! parsing, whitespace trimming and prefix tests.

use vstd::prelude::*;

verus! {

/// A byte is an ASCII decimal digit.
pub open spec fn is_digit(b: u8) -> bool {
    48 <= b && b <= 57
}

/// Numeric value of an ASCII digit byte.
pub open spec fn digit_val(b: u8) -> nat
    recommends
        is_digit(b),
{
    (b - 48) as nat
}

/// A byte is ASCII whitespace (the bytes `str::trim` removes in ASCII text).
pub open spec fn is_space(b: u8) -> bool {
    b == 32 || (9 <= b && b <= 13)
}

/// End of the maximal run of digit bytes starting at `i`.
pub open spec fn digit_run_end(s: Seq<u8>, i: int) -> int
    decreases s.len() - i,
{
    if 0 <= i < s.len() && is_digit(s[i]) {
        digit_run_end(s, i + 1)
    } else {
        i
    }
}

/// Value of a sequence of digit bytes read as a decimal numeral.
pub open spec fn dec_val(s: Seq<u8>) -> nat
    decreases s.len(),
{
    if s.len() == 0 {
        0
    } else {
        dec_val(s.drop_last()) * 10 + digit_val(s.last())
    }
}

/// What parsing a digit run as a 32-bit number yields: the numeral's value,
/// unless it does not fit.
pub open spec fn parse_u32(s: Seq<u8>) -> Option<u32> {
    if dec_val(s) <= u32::MAX {
        Some(dec_val(s) as u32)
    } else {
        None
    }
}

pub proof fn lemma_digit_run_end_bounds(s: Seq<u8>, i: int)
    requires
        0 <= i <= s.len(),
    ensures
        i <= digit_run_end(s, i) <= s.len(),
        forall|k: int| i <= k < digit_run_end(s, i) ==> is_digit(s[k]),
        digit_run_end(s, i) == s.len() || !is_digit(s[digit_run_end(s, i)]),
    decreases s.len() - i,
{
    if i < s.len() && is_digit(s[i]) {
        lemma_digit_run_end_bounds(s, i + 1);
    }
}

/// Exec counterpart of `digit_run_end`.
pub fn run_end(s: &Vec<u8>, i: usize) -> (r: usize)
    requires
        i <= s@.len(),
    ensures
        r as int == digit_run_end(s@, i as int),
        i <= r <= s@.len(),
{
    proof {
        lemma_digit_run_end_bounds(s@, i as int);
    }
    let mut j: usize = i;
    while j < s.len() && s[j] >= 48 && s[j] <= 57
        invariant
            i <= j <= s@.len(),
            digit_run_end(s@, i as int) == digit_run_end(s@, j as int),
        decreases s@.len() - j,
    {
        j = j + 1;
    }
    j
}

/// Scan the digit run starting at `i` and parse it as a decimal number.
/// Returns the end of the run and the parsed value (`None` when the numeral
/// does not fit in 32 bits).
pub fn scan_number(s: &Vec<u8>, i: usize) -> (r: (usize, Option<u32>))
    requires
        i <= s@.len(),
    ensures
        r.0 as int == digit_run_end(s@, i as int),
        r.1 == parse_u32(s@.subrange(i as int, digit_run_end(s@, i as int))),
        i <= r.0 <= s@.len(),
{
    proof {
        lemma_digit_run_end_bounds(s@, i as int);
        assert(s@.subrange(i as int, i as int) =~= Seq::<u8>::empty());
    }
    let mut j: usize = i;
    let mut cur: Option<u32> = Some(0);
    while j < s.len() && s[j] >= 48 && s[j] <= 57
        invariant
            i <= j <= s@.len(),
            digit_run_end(s@, i as int) == digit_run_end(s@, j as int),
            cur == parse_u32(s@.subrange(i as int, j as int)),
        decreases s@.len() - j,
    {
        let d: u32 = (s[j] - 48) as u32;
        let next: Option<u32> = match cur {
            Some(v) => match v.checked_mul(10) {
                Some(m) => m.checked_add(d),
                None => None,
            },
            None => None,
        };
        proof {
            let pre = s@.subrange(i as int, j as int);
            let post = s@.subrange(i as int, j as int + 1);
            assert(post.drop_last() =~= pre);
            assert(post.last() == s@[j as int]);
            assert(dec_val(post) == dec_val(pre) * 10 + digit_val(s@[j as int]));
            if cur is None {
                assert(dec_val(pre) > u32::MAX);
                assert(dec_val(pre) * 10 >= dec_val(pre));
            }
        }
        cur = next;
        j = j + 1;
    }
    (j, cur)
}

/// First index at or after `i` that does not hold whitespace.
pub open spec fn space_run_end(s: Seq<u8>, i: int) -> int
    decreases s.len() - i,
{
    if 0 <= i < s.len() && is_space(s[i]) {
        space_run_end(s, i + 1)
    } else {
        i
    }
}

pub proof fn lemma_space_run_end_bounds(s: Seq<u8>, i: int)
    requires
        0 <= i <= s.len(),
    ensures
        i <= space_run_end(s, i) <= s.len(),
        forall|k: int| i <= k < space_run_end(s, i) ==> is_space(s[k]),
        space_run_end(s, i) == s.len() || !is_space(s[space_run_end(s, i)]),
    decreases s.len() - i,
{
    if i < s.len() && is_space(s[i]) {
        lemma_space_run_end_bounds(s, i + 1);
    }
}

/// Position just after the last non-whitespace byte.
pub open spec fn trim_end_pos(s: Seq<u8>) -> int
    decreases s.len(),
{
    if s.len() > 0 && is_space(s.last()) {
        trim_end_pos(s.drop_last())
    } else {
        s.len() as int
    }
}

pub proof fn lemma_trim_end_pos_bounds(s: Seq<u8>)
    ensures
        0 <= trim_end_pos(s) <= s.len(),
        forall|k: int| trim_end_pos(s) <= k < s.len() ==> is_space(s[k]),
        trim_end_pos(s) == 0 || !is_space(s[trim_end_pos(s) - 1]),
    decreases s.len(),
{
    if s.len() > 0 && is_space(s.last()) {
        lemma_trim_end_pos_bounds(s.drop_last());
        assert(forall|k: int|
            trim_end_pos(s) <= k < s.len() - 1 ==> s.drop_last()[k] == s[k] && is_space(s[k]));
    }
}

/// The line with leading and trailing whitespace removed.
pub open spec fn spec_trim(s: Seq<u8>) -> Seq<u8> {
    let a = space_run_end(s, 0);
    let b = trim_end_pos(s);
    if a <= b {
        s.subrange(a, b)
    } else {
        Seq::empty()
    }
}

/// Copy of `s[a..b]`.
pub fn subvec(s: &Vec<u8>, a: usize, b: usize) -> (r: Vec<u8>)
    requires
        a <= b <= s@.len(),
    ensures
        r@ == s@.subrange(a as int, b as int),
{
    let mut r: Vec<u8> = Vec::new();
    let mut k: usize = a;
    proof {
        assert(r@ =~= s@.subrange(a as int, a as int));
    }
    while k < b
        invariant
            a <= k <= b <= s@.len(),
            r@ == s@.subrange(a as int, k as int),
        decreases b - k,
    {
        r.push(s[k]);
        proof {
            assert(r@ =~= s@.subrange(a as int, k as int + 1));
        }
        k = k + 1;
    }
    r
}

/// Exec counterpart of `spec_trim`: `s` with whitespace removed at both ends.
pub fn trim(s: &Vec<u8>) -> (r: Vec<u8>)
    ensures
        r@ == spec_trim(s@),
{
    proof {
        lemma_space_run_end_bounds(s@, 0);
        lemma_trim_end_pos_bounds(s@);
    }
    let mut a: usize = 0;
    while a < s.len() && (s[a] == 32 || (s[a] >= 9 && s[a] <= 13))
        invariant
            a <= s@.len(),
            space_run_end(s@, 0) == space_run_end(s@, a as int),
        decreases s@.len() - a,
    {
        a = a + 1;
    }
    let mut b: usize = s.len();
    proof {
        assert(s@.subrange(0, s@.len() as int) =~= s@);
    }
    while b > 0 && (s[b - 1] == 32 || (s[b - 1] >= 9 && s[b - 1] <= 13))
        invariant
            b <= s@.len(),
            trim_end_pos(s@) == trim_end_pos(s@.subrange(0, b as int)),
        decreases b,
    {
        proof {
            let t = s@.subrange(0, b as int);
            assert(t.last() == s@[b - 1]);
            assert(t.drop_last() =~= s@.subrange(0, b as int - 1));
        }
        b = b - 1;
    }
    proof {
        let t = s@.subrange(0, b as int);
        if b > 0 {
            assert(t.last() == s@[b - 1]);
        }
        assert(trim_end_pos(s@.subrange(0, b as int)) == b as int);
    }
    if a <= b {
        subvec(s, a, b)
    } else {
        let r: Vec<u8> = Vec::new();
        proof {
            assert(r@ =~= Seq::<u8>::empty());
        }
        r
    }
}

} // verus!
