//! Properties of the pipeline, stated and proved once and for all inputs.
//!
//! Each law is a public proof function; its `requires` holds nothing beyond
//! the law's own premise.

use vstd::prelude::*;
use crate::diagnostic::{spec_zero_range, Position, Range};
use crate::lines::spec_lines;
use crate::message::{
    body_fold,
    body_step,
    has_error_prefix,
    has_rule_prefix,
    has_warning_prefix,
    sentinel_message,
    Severity,
    SpecAcc,
};
use crate::patterns::{caps_col, caps_cross, caps_single, first_col_from, first_cross_from,
    first_single_from};
use crate::diagnostic::SpecDiagnostic;
use crate::report::{
    block_init,
    diags_from,
    failure_diag,
    failure_message,
    is_header_line,
    spec_block_diag,
    spec_translate,
};
use crate::session::{missing_file_message, spec_step_action, Action, Event, SessionState};

verus! {

proof fn lemma_fold_keeps_col(init: SpecAcc, body: Seq<Seq<u8>>)
    requires
        init.col_start is Some,
    ensures
        body_fold(init, body).col_start == init.col_start,
    decreases body.len(),
{
    if body.len() > 0 {
        lemma_fold_keeps_col(init, body.drop_last());
    }
}

/// A body line that reaches the `(char N)` marker branch of the accumulator:
/// not severity-tagged, and the marker matches somewhere in it.
pub open spec fn is_marker_line(l: Seq<u8>) -> bool {
    &&& !has_error_prefix(l)
    &&& !has_warning_prefix(l)
    &&& first_col_from(l, 0) is Some
}

proof fn lemma_fold_no_marker_keeps_none(init: SpecAcc, body: Seq<Seq<u8>>)
    requires
        init.col_start is None,
        forall|k: int| 0 <= k < body.len() ==> !is_marker_line(#[trigger] body[k]),
    ensures
        body_fold(init, body).col_start is None,
    decreases body.len(),
{
    if body.len() > 0 {
        assert(forall|k: int|
            0 <= k < body.len() - 1 ==> !is_marker_line(#[trigger] body.drop_last()[k]));
        lemma_fold_no_marker_keeps_none(init, body.drop_last());
        assert(!is_marker_line(body.last()));
    }
}

/// For all header lines carrying the single-line shape `line L, column C1 -
/// C2` (and not the cross-line shape), the synthesized range runs from
/// `(L - 1, C1)` to `(L - 1, C2)`, whatever the body holds.
pub proof fn law_single_line_header_range(
    header: Seq<u8>,
    body: Seq<Seq<u8>>,
    l: u32,
    c1: u32,
    c2: u32,
)
    requires
        first_cross_from(header, 0) is None,
        first_single_from(header, 0) is Some,
        caps_single(header, first_single_from(header, 0)->Some_0) == (
            Some(l),
            Some(c1),
            Some(c2),
        ),
        l >= 1,
    ensures
        spec_block_diag(header, body).range == (Range {
            start: Position { line: (l - 1) as u32, character: c1 },
            end: Position { line: (l - 1) as u32, character: c2 },
        }),
{
    lemma_fold_keeps_col(block_init(header), body);
}

/// For all header lines carrying the cross-line shape `line L1, column C1 -
/// line L2, column C2`, the synthesized range runs from `(L1 - 1, C1)` to
/// `(L2 - 1, C2)`, whatever the body holds.
pub proof fn law_cross_line_header_range(
    header: Seq<u8>,
    body: Seq<Seq<u8>>,
    l1: u32,
    c1: u32,
    l2: u32,
    c2: u32,
)
    requires
        first_cross_from(header, 0) is Some,
        caps_cross(header, first_cross_from(header, 0)->Some_0) == (
            Some(l1),
            Some(c1),
            Some(l2),
            Some(c2),
        ),
        l1 >= 1,
        l2 >= 1,
    ensures
        spec_block_diag(header, body).range == (Range {
            start: Position { line: (l1 - 1) as u32, character: c1 },
            end: Position { line: (l2 - 1) as u32, character: c2 },
        }),
{
    lemma_fold_keeps_col(block_init(header), body);
}

/// When the header supplied no column, the first body line reaching the
/// `(char N)` marker branch supplies the start column; markers on later
/// lines of the same block are ignored.
pub proof fn law_first_char_marker_wins(header: Seq<u8>, body: Seq<Seq<u8>>, m: int, v: u32)
    requires
        first_cross_from(header, 0) is None,
        first_single_from(header, 0) is None,
        0 <= m < body.len(),
        is_marker_line(body[m]),
        caps_col(body[m], first_col_from(body[m], 0)->Some_0) == Some(v),
        forall|k: int| 0 <= k < m ==> !is_marker_line(#[trigger] body[k]),
    ensures
        body_fold(block_init(header), body).col_start == Some(v),
        spec_block_diag(header, body).range.start.character == v,
    decreases body.len(),
{
    let init = block_init(header);
    if m == body.len() - 1 {
        assert(forall|k: int|
            0 <= k < body.len() - 1 ==> !is_marker_line(#[trigger] body.drop_last()[k]));
        lemma_fold_no_marker_keeps_none(init, body.drop_last());
        assert(body.last() == body[m]);
    } else {
        assert(forall|k: int| 0 <= k < m ==> !is_marker_line(#[trigger] body.drop_last()[k]));
        assert(body.drop_last()[m] == body[m]);
        law_first_char_marker_wins(header, body.drop_last(), m, v);
    }
}

proof fn lemma_no_headers_no_diags(lines: Seq<Seq<u8>>, i: int)
    requires
        0 <= i,
        forall|k: int| i <= k < lines.len() ==> !is_header_line(#[trigger] lines[k]),
    ensures
        diags_from(lines, i) =~= Seq::<SpecDiagnostic>::empty(),
    decreases lines.len() - i,
{
    if i < lines.len() {
        lemma_no_headers_no_diags(lines, i + 1);
    }
}

/// A report with no header line at all, from a failing run, yields exactly
/// one diagnostic: the whole-batch failure, with severity `Error` and the
/// default range.
pub proof fn law_failure_never_swallowed(s: Seq<u8>)
    requires
        forall|k: int|
            0 <= k < spec_lines(s).len() ==> !is_header_line(#[trigger] spec_lines(s)[k]),
    ensures
        spec_translate(s, false) =~= seq![failure_diag()],
        spec_translate(s, false).len() == 1,
        spec_translate(s, false)[0].message == failure_message(),
        spec_translate(s, false)[0].severity == Some(Severity::Error),
        spec_translate(s, false)[0].range == spec_zero_range(),
{
    lemma_no_headers_no_diags(spec_lines(s), 0);
}

/// A block whose only body line is a `Definition rule` annotation collects
/// no message fragments: its diagnostic carries the sentinel message and no
/// severity.
pub proof fn law_rule_line_contributes_nothing(header: Seq<u8>, l: Seq<u8>)
    requires
        has_rule_prefix(l),
    ensures
        body_fold(block_init(header), seq![l]).fragments.len() == 0,
        spec_block_diag(header, seq![l]).message == sentinel_message(),
        spec_block_diag(header, seq![l]).severity is None,
{
    let body: Seq<Seq<u8>> = seq![l];
    let init = block_init(header);
    assert(body.drop_last() =~= Seq::<Seq<u8>>::empty());
    assert(body_fold(init, body.drop_last()) == init);
    assert(body.last() == l);
    assert(body_fold(init, body) == body_step(init, l));
}

/// The missing-file message names the path: its bytes stand unchanged inside
/// the message.
pub proof fn law_missing_file_message_names_path(path: Seq<u8>)
    ensures
        missing_file_message(path).len() == path.len() + 24,
        missing_file_message(path).subrange(10, 10 + path.len() as int) =~= path,
{
}

/// A file event for a path that is not a regular file never asks for a
/// checker run; in a running session it asks for the missing-file report
/// instead.
pub proof fn law_missing_file_short_circuit(st: SessionState)
    ensures
        spec_step_action(st, Event::FileChanged { exists: false }) != Action::RunChecker,
        st == SessionState::Running ==> spec_step_action(st, Event::FileChanged { exists: false })
            == Action::ReportMissingFile,
{
}

} // verus!
