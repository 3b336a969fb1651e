use ott_lsp::diagnostic::{Diagnostic, Position, Range};
use ott_lsp::message::Severity;
use ott_lsp::report::translate_report;

fn range(sl: u32, sc: u32, el: u32, ec: u32) -> Range {
    Range {
        start: Position { line: sl, character: sc },
        end: Position { line: el, character: ec },
    }
}

fn translate(text: &str, success: bool) -> Vec<Diagnostic> {
    translate_report(&text.as_bytes().to_vec(), success)
}

#[test]
fn single_line_header_range() {
    let out = translate(
        "File test.ott, line 3, column 4 - 7\nError: bad production\n",
        false,
    );
    assert_eq!(out.len(), 1);
    assert_eq!(out[0].range, range(2, 4, 2, 7));
    assert_eq!(out[0].severity, Some(Severity::Error));
    assert_eq!(out[0].message, b"bad production".to_vec());
}

#[test]
fn cross_line_header_range() {
    let out = translate(
        "File test.ott, line 2, column 1 - line 4, column 6\nWarning: spans lines\n",
        true,
    );
    assert_eq!(out.len(), 1);
    assert_eq!(out[0].range, range(1, 1, 3, 6));
    assert_eq!(out[0].severity, Some(Severity::Warning));
    assert_eq!(out[0].message, b"spans lines".to_vec());
}

#[test]
fn cross_line_shape_wins_over_single_line_suffix() {
    // The cross-line shape matches at the start; the single-line shape would
    // only match farther right. The full four-number form takes precedence.
    let out = translate("File x, line 1, column 2 - line 3, column 4 - 5\n", false);
    assert_eq!(out.len(), 1);
    assert_eq!(out[0].range, range(0, 2, 2, 4));
}

#[test]
fn bare_header_gives_whole_line_marker() {
    let out = translate("File test.ott, line 9\nError: something\n", false);
    assert_eq!(out.len(), 1);
    assert_eq!(out[0].range, range(8, 0, 8, 0));
}

#[test]
fn header_without_position_defaults_to_line_zero() {
    let out = translate("File with no numbers\nError: broken\n", false);
    assert_eq!(out.len(), 1);
    assert_eq!(out[0].range, range(0, 0, 0, 0));
    assert_eq!(out[0].message, b"broken".to_vec());
}

#[test]
fn char_marker_supplies_missing_column() {
    let out = translate("File test.ott, line 2\n(char 3)\noops\n", false);
    assert_eq!(out.len(), 1);
    // start column from the marker; end column start + message length
    assert_eq!(out[0].range, range(1, 3, 1, 7));
    assert_eq!(out[0].message, b"oops".to_vec());
}

#[test]
fn first_char_marker_wins_second_ignored() {
    let out = translate("File test.ott, line 7\nblah (char 5)\nmore (char 9)\n", false);
    assert_eq!(out.len(), 1);
    assert_eq!(out[0].range.start, Position { line: 6, character: 5 });
}

#[test]
fn char_marker_never_overrides_header_column() {
    let out = translate("File test.ott, line 3, column 4 - 7\n(char 9)\n", false);
    assert_eq!(out.len(), 1);
    assert_eq!(out[0].range, range(2, 4, 2, 7));
}

#[test]
fn error_then_continuation_joins_with_space() {
    let out = translate("File f, line 1\nError: foo\nbar\n", false);
    assert_eq!(out.len(), 1);
    assert_eq!(out[0].severity, Some(Severity::Error));
    assert_eq!(out[0].message, b"foo bar".to_vec());
}

#[test]
fn severity_never_downgraded_within_block() {
    let out = translate("File f, line 1\nError: a\nWarning: b\n", false);
    assert_eq!(out.len(), 1);
    assert_eq!(out[0].severity, Some(Severity::Error));
    assert_eq!(out[0].message, b"a b".to_vec());
}

#[test]
fn warning_upgraded_to_error() {
    let out = translate("File f, line 1\nWarning: a\nError: b\n", false);
    assert_eq!(out[0].severity, Some(Severity::Error));
}

#[test]
fn tagged_lines_are_trimmed_and_empty_remainders_dropped() {
    let out = translate("File f, line 1\nError:   spaced   \nError:\n", false);
    assert_eq!(out.len(), 1);
    assert_eq!(out[0].message, b"spaced".to_vec());
}

#[test]
fn blank_lines_contribute_no_fragment() {
    let out = translate("File f, line 1\nError: foo\n\n   \nbar\n", false);
    assert_eq!(out.len(), 1);
    assert_eq!(out[0].message, b"foo bar".to_vec());
}

#[test]
fn definition_rule_line_yields_sentinel() {
    let out = translate("File f, line 1\nDefinition rule X\n", false);
    assert_eq!(out.len(), 1);
    assert_eq!(out[0].severity, None);
    assert_eq!(out[0].message, b"unknown ott diagnostic message".to_vec());
}

#[test]
fn two_blocks_two_diagnostics() {
    let out = translate(
        "File a, line 1, column 2 - 3\nError: one\nFile b, line 4, column 5 - 6\nError: two\n",
        false,
    );
    assert_eq!(out.len(), 2);
    assert_eq!(out[0].range, range(0, 2, 0, 3));
    assert_eq!(out[0].message, b"one".to_vec());
    assert_eq!(out[1].range, range(3, 5, 3, 6));
    assert_eq!(out[1].message, b"two".to_vec());
}

#[test]
fn preamble_before_first_header_is_ignored() {
    let out = translate("some chatter\nFile f, line 1\nError: x\n", false);
    assert_eq!(out.len(), 1);
    assert_eq!(out[0].message, b"x".to_vec());
}

#[test]
fn failure_without_blocks_yields_single_failure_diagnostic() {
    let out = translate("no recognizable output\n", false);
    assert_eq!(out.len(), 1);
    assert_eq!(out[0].message, b"ott processing failed".to_vec());
    assert_eq!(out[0].severity, Some(Severity::Error));
    assert_eq!(out[0].range, range(0, 0, 0, 0));
}

#[test]
fn empty_report_on_success_yields_nothing() {
    let out = translate("", true);
    assert_eq!(out.len(), 0);
}

#[test]
fn empty_report_on_failure_yields_failure_diagnostic() {
    let out = translate("", false);
    assert_eq!(out.len(), 1);
    assert_eq!(out[0].message, b"ott processing failed".to_vec());
}

#[test]
fn blocks_with_failure_status_suppress_synthetic_diagnostic() {
    let out = translate("File f, line 1\nError: real\n", false);
    assert_eq!(out.len(), 1);
    assert_eq!(out[0].message, b"real".to_vec());
}

#[test]
fn line_zero_clamps_to_first_line() {
    let out = translate("File f, line 0, column 2 - 3\n", false);
    assert_eq!(out.len(), 1);
    assert_eq!(out[0].range, range(0, 2, 0, 3));
}

#[test]
fn crlf_terminators_are_handled() {
    let out = translate("File f, line 3, column 4 - 7\r\nError: bad\r\n", false);
    assert_eq!(out.len(), 1);
    assert_eq!(out[0].range, range(2, 4, 2, 7));
    assert_eq!(out[0].message, b"bad".to_vec());
}

#[test]
fn unparseable_block_gets_sentinel_and_whole_line_range() {
    let out = translate("File gibberish header\n", true);
    assert_eq!(out.len(), 1);
    assert_eq!(out[0].severity, None);
    assert_eq!(out[0].range, range(0, 0, 0, 0));
    assert_eq!(out[0].message, b"unknown ott diagnostic message".to_vec());
}

fn same_batch(a: &[Diagnostic], b: &[Diagnostic]) -> bool {
    a.len() == b.len()
        && a.iter().zip(b.iter()).all(|(x, y)| {
            x.range == y.range && x.severity == y.severity && x.message == y.message
        })
}

#[test]
fn pipeline_is_deterministic() {
    let text = "File a, line 1, column 2 - 3\nError: one\ntrailing\nFile b, line 9\n(char 4)\n";
    let first = translate(text, false);
    let second = translate(text, false);
    assert!(same_batch(&first, &second));
}
