//! Accumulation of a block's body lines into one severity and one message.
//!
//! Each body line is classified in order: a severity-tagged line (`Error:` or
//! `Warning:` prefix) sets the severity and contributes its remainder; a
//! `(char N)` marker may supply a missing start column and contributes no
//! text; a `Definition rule` annotation is skipped; anything else contributes
//! its trimmed text. Fragments are joined with single spaces; a block with no
//! fragments gets a sentinel message.

use vstd::prelude::*;
use crate::bytes::{scan_number, spec_trim, subvec, trim};
use crate::patterns::{caps_col, find_col, first_col_from, lemma_first_col_found};

verus! {

/// Classification of a diagnostic.
#[derive(Clone, Copy, Debug, PartialEq, Eq, Structural)]
pub enum Severity {
    Error,
    Warning,
    Information,
}

/// The line starts with `Error:`.
pub open spec fn has_error_prefix(s: Seq<u8>) -> bool {
    &&& s.len() >= 6
    &&& s[0] == 69
    &&& s[1] == 114
    &&& s[2] == 114
    &&& s[3] == 111
    &&& s[4] == 114
    &&& s[5] == 58
}

/// The line starts with `Warning:`.
pub open spec fn has_warning_prefix(s: Seq<u8>) -> bool {
    &&& s.len() >= 8
    &&& s[0] == 87
    &&& s[1] == 97
    &&& s[2] == 114
    &&& s[3] == 110
    &&& s[4] == 105
    &&& s[5] == 110
    &&& s[6] == 103
    &&& s[7] == 58
}

/// The line starts with `Definition rule`.
pub open spec fn has_rule_prefix(s: Seq<u8>) -> bool {
    &&& s.len() >= 15
    &&& s[0] == 68
    &&& s[1] == 101
    &&& s[2] == 102
    &&& s[3] == 105
    &&& s[4] == 110
    &&& s[5] == 105
    &&& s[6] == 116
    &&& s[7] == 105
    &&& s[8] == 111
    &&& s[9] == 110
    &&& s[10] == 32
    &&& s[11] == 114
    &&& s[12] == 117
    &&& s[13] == 108
    &&& s[14] == 101
}

/// State accumulated over a block's body: the start column recovered so far,
/// the severity, and the message fragments in order.
pub struct SpecAcc {
    pub col_start: Option<u32>,
    pub severity: Option<Severity>,
    pub fragments: Seq<Seq<u8>>,
}

/// How one body line changes the accumulated state.
pub open spec fn body_step(acc: SpecAcc, line: Seq<u8>) -> SpecAcc {
    if has_error_prefix(line) {
        let t = spec_trim(line.subrange(6, line.len() as int));
        SpecAcc {
            severity: Some(Severity::Error),
            fragments: if t.len() > 0 {
                acc.fragments.push(t)
            } else {
                acc.fragments
            },
            ..acc
        }
    } else if has_warning_prefix(line) {
        let t = spec_trim(line.subrange(8, line.len() as int));
        SpecAcc {
            severity: if acc.severity == Some(Severity::Error) {
                acc.severity
            } else {
                Some(Severity::Warning)
            },
            fragments: if t.len() > 0 {
                acc.fragments.push(t)
            } else {
                acc.fragments
            },
            ..acc
        }
    } else if first_col_from(line, 0) is Some {
        SpecAcc {
            col_start: if acc.col_start is None {
                caps_col(line, first_col_from(line, 0)->Some_0)
            } else {
                acc.col_start
            },
            ..acc
        }
    } else if has_rule_prefix(line) {
        acc
    } else {
        let t = spec_trim(line);
        SpecAcc {
            fragments: if t.len() > 0 {
                acc.fragments.push(t)
            } else {
                acc.fragments
            },
            ..acc
        }
    }
}

/// The accumulated state after a whole body, line by line in order.
pub open spec fn body_fold(init: SpecAcc, body: Seq<Seq<u8>>) -> SpecAcc
    decreases body.len(),
{
    if body.len() == 0 {
        init
    } else {
        body_step(body_fold(init, body.drop_last()), body.last())
    }
}

/// Exec accumulator over a block's body lines.
pub struct Accumulator {
    pub col_start: Option<u32>,
    pub severity: Option<Severity>,
    pub fragments: Vec<Vec<u8>>,
}

impl View for Accumulator {
    type V = SpecAcc;

    open spec fn view(&self) -> SpecAcc {
        SpecAcc {
            col_start: self.col_start,
            severity: self.severity,
            fragments: self.fragments.deep_view(),
        }
    }
}

impl Accumulator {
    /// Fresh state, with whatever start column the header supplied.
    pub fn new(col_start: Option<u32>) -> (r: Accumulator)
        ensures
            r@ == (SpecAcc { col_start, severity: None, fragments: Seq::<Seq<u8>>::empty() }),
    {
        let r = Accumulator { col_start, severity: None, fragments: Vec::new() };
        proof {
            assert(r.fragments.deep_view() =~= Seq::<Seq<u8>>::empty());
        }
        r
    }

    /// Whether the line starts with `Error:`, executably.
    fn is_error_line(line: &Vec<u8>) -> (r: bool)
        ensures
            r == has_error_prefix(line@),
    {
        line.len() >= 6 && line[0] == 69 && line[1] == 114 && line[2] == 114 && line[3] == 111
            && line[4] == 114 && line[5] == 58
    }

    /// Whether the line starts with `Warning:`, executably.
    fn is_warning_line(line: &Vec<u8>) -> (r: bool)
        ensures
            r == has_warning_prefix(line@),
    {
        line.len() >= 8 && line[0] == 87 && line[1] == 97 && line[2] == 114 && line[3] == 110
            && line[4] == 105 && line[5] == 110 && line[6] == 103 && line[7] == 58
    }

    /// Whether the line starts with `Definition rule`, executably.
    fn is_rule_line(line: &Vec<u8>) -> (r: bool)
        ensures
            r == has_rule_prefix(line@),
    {
        line.len() >= 15 && line[0] == 68 && line[1] == 101 && line[2] == 102 && line[3] == 105
            && line[4] == 110 && line[5] == 105 && line[6] == 116 && line[7] == 105 && line[8]
            == 111 && line[9] == 110 && line[10] == 32 && line[11] == 114 && line[12] == 117
            && line[13] == 108 && line[14] == 101
    }

    /// Push a fragment unless it is empty.
    fn push_fragment(&mut self, t: Vec<u8>)
        ensures
            final(self)@ == (SpecAcc {
                fragments: if t@.len() > 0 {
                    old(self)@.fragments.push(t@)
                } else {
                    old(self)@.fragments
                },
                ..old(self)@
            }),
    {
        if t.len() > 0 {
            self.fragments.push(t);
            proof {
                assert(self.fragments.deep_view() =~~= old(self).fragments.deep_view().push(t@));
            }
        }
    }

    /// Fold one body line into the state.
    pub fn step(&mut self, line: &Vec<u8>)
        ensures
            final(self)@ == body_step(old(self)@, line@),
    {
        if Self::is_error_line(line) {
            self.severity = Some(Severity::Error);
            let rest = subvec(line, 6, line.len());
            let t = trim(&rest);
            self.push_fragment(t);
        } else if Self::is_warning_line(line) {
            if !matches!(self.severity, Some(Severity::Error)) {
                self.severity = Some(Severity::Warning);
            }
            let rest = subvec(line, 8, line.len());
            let t = trim(&rest);
            self.push_fragment(t);
        } else if let Some(i) = find_col(line) {
            let n: usize = line.len();
            proof {
                lemma_first_col_found(line@, 0);
                assert(i + 6 < n as int);
            }
            if self.col_start.is_none() {
                let (_e, v) = scan_number(line, i + 6);
                self.col_start = v;
            }
        } else if Self::is_rule_line(line) {
        } else {
            let t = trim(line);
            self.push_fragment(t);
        }
    }
}

/// Fragments joined with single spaces.
pub open spec fn spec_join(frags: Seq<Seq<u8>>) -> Seq<u8>
    decreases frags.len(),
{
    if frags.len() == 0 {
        Seq::empty()
    } else if frags.len() == 1 {
        frags[0]
    } else {
        spec_join(frags.drop_last()) + seq![32u8] + frags.last()
    }
}

/// The block's final message: the joined fragments, or the sentinel when
/// there are none.
pub open spec fn finalize_message(frags: Seq<Seq<u8>>) -> Seq<u8> {
    if frags.len() == 0 {
        sentinel_message()
    } else {
        spec_join(frags)
    }
}

/// The sentinel used when a block yields no message fragments.
///
/// The bytes spell `unknown ott diagnostic message`.
pub open spec fn sentinel_message() -> Seq<u8> {
    seq![117u8, 110u8, 107u8, 110u8, 111u8, 119u8, 110u8, 32u8, 111u8, 116u8, 116u8, 32u8, 100u8, 105u8, 97u8, 103u8, 110u8, 111u8, 115u8, 116u8, 105u8, 99u8, 32u8, 109u8, 101u8, 115u8, 115u8, 97u8, 103u8, 101u8]
}

/// Exec counterpart of `sentinel_message`.
pub fn sentinel_message_vec() -> (r: Vec<u8>)
    ensures
        r@ == sentinel_message(),
{
    let mut r: Vec<u8> = Vec::new();
    r.push(117);
    r.push(110);
    r.push(107);
    r.push(110);
    r.push(111);
    r.push(119);
    r.push(110);
    r.push(32);
    r.push(111);
    r.push(116);
    r.push(116);
    r.push(32);
    r.push(100);
    r.push(105);
    r.push(97);
    r.push(103);
    r.push(110);
    r.push(111);
    r.push(115);
    r.push(116);
    r.push(105);
    r.push(99);
    r.push(32);
    r.push(109);
    r.push(101);
    r.push(115);
    r.push(115);
    r.push(97);
    r.push(103);
    r.push(101);
    proof {
        assert(r@ =~= sentinel_message());
    }
    r
}

/// Join the collected fragments into the final message.
pub fn finalize(frags: &Vec<Vec<u8>>) -> (r: Vec<u8>)
    ensures
        r@ == finalize_message(frags.deep_view()),
{
    if frags.len() == 0 {
        proof {
            assert(frags.deep_view().len() == 0);
        }
        return sentinel_message_vec();
    }
    let mut r: Vec<u8> = Vec::new();
    let mut k: usize = 0;
    proof {
        assert(r@ =~= spec_join(frags.deep_view().subrange(0, 0)));
    }
    while k < frags.len()
        invariant
            k <= frags@.len(),
            frags@.len() > 0,
            r@ == spec_join(frags.deep_view().subrange(0, k as int)),
        decreases frags@.len() - k,
    {
        let ghost pre = frags.deep_view().subrange(0, k as int);
        let ghost post = frags.deep_view().subrange(0, k as int + 1);
        proof {
            assert(post.drop_last() =~= pre);
            assert(post.last() == frags@[k as int].deep_view());
        }
        if k > 0 {
            r.push(32);
        }
        let f = &frags[k];
        let mut m: usize = 0;
        let ghost base = r@;
        while m < f.len()
            invariant
                m <= f@.len(),
                r@ == base + f@.subrange(0, m as int),
            decreases f@.len() - m,
        {
            r.push(f[m]);
            proof {
                assert(base + f@.subrange(0, m as int + 1) =~= (base + f@.subrange(
                    0,
                    m as int,
                )).push(f@[m as int]));
            }
            m = m + 1;
        }
        proof {
            assert(f@.subrange(0, f@.len() as int) =~= f@);
            assert(f@ =~= frags@[k as int].deep_view());
            if k == 0 {
                assert(post.len() == 1);
                assert(base =~= Seq::<u8>::empty());
                assert(r@ =~= post.last());
                assert(r@ == spec_join(post));
            } else {
                assert(pre.len() >= 1);
                assert(base =~= spec_join(pre) + seq![32u8]);
                assert(r@ =~= spec_join(pre) + seq![32u8] + post.last());
                assert(r@ == spec_join(post));
            }
        }
        k = k + 1;
    }
    proof {
        assert(frags.deep_view().subrange(0, frags@.len() as int) =~= frags.deep_view());
    }
    r
}

} // verus!
