//! The report pipeline: recognizing blocks in the checker's stdout and
//! turning each into one diagnostic.
//!
//! A line is a header iff it starts with the marker `File`. A block runs from
//! its header up to (but not including) the next header line or the end of
//! the report. Each block yields exactly one diagnostic; when no block was
//! recognized and the checker nevertheless signalled failure, a single
//! synthetic whole-batch failure diagnostic is produced so that failures are
//! never silently swallowed.

use vstd::prelude::*;
use crate::diagnostic::{
    spec_range,
    spec_zero_range,
    synthesize_range,
    Diagnostic,
    Range,
    SpecDiagnostic,
};
use crate::extract::{extract_header, spec_extract_header, PositionSpec};
use crate::lines::{spec_lines, split_lines};
use crate::message::{body_fold, finalize, finalize_message, Accumulator, Severity, SpecAcc};

verus! {

/// The line opens a block: it starts with the marker `File`.
pub open spec fn is_header_line(l: Seq<u8>) -> bool {
    &&& l.len() >= 4
    &&& l[0] == 70
    &&& l[1] == 105
    &&& l[2] == 108
    &&& l[3] == 101
}

/// Exec counterpart of `is_header_line`.
pub fn is_header(l: &Vec<u8>) -> (r: bool)
    ensures
        r == is_header_line(l@),
{
    l.len() >= 4 && l[0] == 70 && l[1] == 105 && l[2] == 108 && l[3] == 101
}

/// The message of the synthetic whole-batch failure diagnostic.
///
/// The bytes spell `ott processing failed`.
pub open spec fn failure_message() -> Seq<u8> {
    seq![111u8, 116u8, 116u8, 32u8, 112u8, 114u8, 111u8, 99u8, 101u8, 115u8, 115u8, 105u8, 110u8, 103u8, 32u8, 102u8, 97u8, 105u8, 108u8, 101u8, 100u8]
}

/// Exec counterpart of `failure_message`.
pub fn failure_message_vec() -> (r: Vec<u8>)
    ensures
        r@ == failure_message(),
{
    let mut r: Vec<u8> = Vec::new();
    r.push(111);
    r.push(116);
    r.push(116);
    r.push(32);
    r.push(112);
    r.push(114);
    r.push(111);
    r.push(99);
    r.push(101);
    r.push(115);
    r.push(115);
    r.push(105);
    r.push(110);
    r.push(103);
    r.push(32);
    r.push(102);
    r.push(97);
    r.push(105);
    r.push(108);
    r.push(101);
    r.push(100);
    proof {
        assert(r@ =~= failure_message());
    }
    r
}

/// The synthetic diagnostic for a failing run whose report had no blocks.
pub open spec fn failure_diag() -> SpecDiagnostic {
    SpecDiagnostic {
        range: spec_zero_range(),
        severity: Some(Severity::Error),
        message: failure_message(),
    }
}

/// Exec counterpart of `failure_diag`.
pub fn failure_diagnostic() -> (d: Diagnostic)
    ensures
        d@ == failure_diag(),
{
    Diagnostic {
        range: Range::zero(),
        severity: Some(Severity::Error),
        message: failure_message_vec(),
    }
}

/// The accumulator a block's body starts from: no severity, no fragments,
/// and whatever start column the header supplied.
pub open spec fn block_init(header: Seq<u8>) -> SpecAcc {
    SpecAcc {
        col_start: spec_extract_header(header).col_start,
        severity: None,
        fragments: Seq::empty(),
    }
}

/// The diagnostic of one block: position extracted from the header, severity
/// and message accumulated over the body, range synthesized from both.
pub open spec fn spec_block_diag(header: Seq<u8>, body: Seq<Seq<u8>>) -> SpecDiagnostic {
    let pos0 = spec_extract_header(header);
    let acc = body_fold(block_init(header), body);
    let msg = finalize_message(acc.fragments);
    let pos = PositionSpec { col_start: acc.col_start, ..pos0 };
    SpecDiagnostic { range: spec_range(pos, msg.len()), severity: acc.severity, message: msg }
}

/// Index of the first header line at or after `i`, or the number of lines.
pub open spec fn next_header(lines: Seq<Seq<u8>>, i: int) -> int
    decreases lines.len() - i,
{
    if i >= lines.len() {
        lines.len() as int
    } else if is_header_line(lines[i]) {
        i
    } else {
        next_header(lines, i + 1)
    }
}

pub proof fn lemma_next_header_bounds(lines: Seq<Seq<u8>>, i: int)
    requires
        i <= lines.len(),
    ensures
        i <= next_header(lines, i) <= lines.len(),
    decreases lines.len() - i,
{
    if i < lines.len() && !is_header_line(lines[i]) {
        lemma_next_header_bounds(lines, i + 1);
    }
}

/// The diagnostics of all blocks from line `i` on.
pub open spec fn diags_from(lines: Seq<Seq<u8>>, i: int) -> Seq<SpecDiagnostic>
    decreases lines.len() - i,
    via diags_from_dec
{
    if i >= lines.len() {
        Seq::empty()
    } else if !is_header_line(lines[i]) {
        diags_from(lines, i + 1)
    } else {
        let j = next_header(lines, i + 1);
        seq![spec_block_diag(lines[i], lines.subrange(i + 1, j))] + diags_from(lines, j)
    }
}

#[via_fn]
proof fn diags_from_dec(lines: Seq<Seq<u8>>, i: int) {
    if i < lines.len() && is_header_line(lines[i]) {
        lemma_next_header_bounds(lines, i + 1);
    }
}

/// What the whole pipeline yields on a report: one diagnostic per block, or
/// the synthetic failure diagnostic when a failing run produced none.
pub open spec fn spec_translate(s: Seq<u8>, success: bool) -> Seq<SpecDiagnostic> {
    let ds = diags_from(spec_lines(s), 0);
    if ds.len() == 0 && !success {
        seq![failure_diag()]
    } else {
        ds
    }
}

/// Turn the block at lines `k .. j` into its diagnostic.
fn process_block(lines: &Vec<Vec<u8>>, k: usize, j: usize) -> (d: Diagnostic)
    requires
        k < j <= lines@.len(),
    ensures
        d@ == spec_block_diag(
            lines.deep_view()[k as int],
            lines.deep_view().subrange(k as int + 1, j as int),
        ),
{
    let ghost ls = lines.deep_view();
    let header = &lines[k];
    proof {
        assert(ls[k as int] =~= header@);
    }
    let pos0 = extract_header(header);
    let mut acc = Accumulator::new(pos0.col_start);
    let ghost init = acc@;
    let mut m: usize = k + 1;
    proof {
        assert(ls.subrange(k as int + 1, k as int + 1) =~= Seq::<Seq<u8>>::empty());
    }
    while m < j
        invariant
            k + 1 <= m <= j <= lines@.len(),
            ls == lines.deep_view(),
            pos0 == spec_extract_header(ls[k as int]),
            init == (SpecAcc {
                col_start: pos0.col_start,
                severity: None,
                fragments: Seq::<Seq<u8>>::empty(),
            }),
            acc@ == body_fold(init, ls.subrange(k as int + 1, m as int)),
        decreases j - m,
    {
        let ghost pre = ls.subrange(k as int + 1, m as int);
        let ghost post = ls.subrange(k as int + 1, m as int + 1);
        let line = &lines[m];
        proof {
            assert(post.drop_last() =~= pre);
            assert(post.last() =~= line@);
        }
        acc.step(line);
        m = m + 1;
    }
    let msg = finalize(&acc.fragments);
    let range = synthesize_range(
        PositionSpec {
            line_start: pos0.line_start,
            line_end: pos0.line_end,
            col_start: acc.col_start,
            col_end: pos0.col_end,
        },
        msg.len(),
    );
    Diagnostic { range, severity: acc.severity, message: msg }
}

/// Translate one checker run's stdout, given whether the process reported
/// success, into the diagnostics to publish.
pub fn translate_report(stdout: &Vec<u8>, success: bool) -> (r: Vec<Diagnostic>)
    ensures
        r.deep_view() == spec_translate(stdout@, success),
{
    let lines = split_lines(stdout);
    let ghost ls = lines.deep_view();
    let mut diags: Vec<Diagnostic> = Vec::new();
    let mut k: usize = 0;
    proof {
        assert(diags.deep_view() =~= Seq::<SpecDiagnostic>::empty());
        assert(diags.deep_view() + diags_from(ls, 0) =~= diags_from(ls, 0));
    }
    while k < lines.len()
        invariant
            k <= lines@.len(),
            ls == lines.deep_view(),
            ls == spec_lines(stdout@),
            diags_from(ls, 0) == diags.deep_view() + diags_from(ls, k as int),
        decreases lines@.len() - k,
    {
        proof {
            assert(ls[k as int] =~= lines@[k as int]@);
        }
        if is_header(&lines[k]) {
            let mut j: usize = k + 1;
            while j < lines.len() && !is_header(&lines[j])
                invariant
                    k + 1 <= j <= lines@.len(),
                    ls == lines.deep_view(),
                    next_header(ls, k as int + 1) == next_header(ls, j as int),
                decreases lines@.len() - j,
            {
                proof {
                    assert(ls[j as int] =~= lines@[j as int]@);
                }
                j = j + 1;
            }
            proof {
                if j < lines@.len() {
                    assert(ls[j as int] =~= lines@[j as int]@);
                }
                assert(next_header(ls, j as int) == j as int);
            }
            let d = process_block(&lines, k, j);
            let ghost old_d = diags.deep_view();
            diags.push(d);
            proof {
                assert(diags.deep_view() =~~= old_d.push(d@));
                assert(diags_from(ls, k as int) =~= seq![
                    spec_block_diag(ls[k as int], ls.subrange(k as int + 1, j as int)),
                ] + diags_from(ls, j as int));
                assert(old_d + diags_from(ls, k as int) =~= diags.deep_view() + diags_from(
                    ls,
                    j as int,
                ));
            }
            k = j;
        } else {
            k = k + 1;
        }
    }
    proof {
        assert(diags_from(ls, k as int) =~= Seq::<SpecDiagnostic>::empty());
        assert(diags.deep_view() + diags_from(ls, k as int) =~= diags.deep_view());
    }
    if diags.len() == 0 && !success {
        let ghost old_d = diags.deep_view();
        let d = failure_diagnostic();
        diags.push(d);
        proof {
            assert(old_d.len() == 0);
            assert(diags.deep_view() =~~= old_d.push(failure_diag()));
            assert(diags.deep_view() =~= seq![failure_diag()]);
        }
    } else {
        proof {
            if diags.deep_view().len() == 0 {
                assert(success);
            }
        }
    }
    diags
}

} // verus!
