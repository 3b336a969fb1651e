//! The output unit: a diagnostic with a 0-based half-open range, an optional
//! severity and a message, and the synthesis of its range from an extracted
//! position.
//!
//! Lines are converted from the checker's 1-based convention by subtracting
//! one (values below one clamp to the first line, so a malformed report still
//! yields a visible diagnostic). Columns are used as parsed. When only a
//! start column is known, the end column is the start plus the message length
//! (a best-effort highlight); when no column is known, the range is a
//! whole-line marker with both columns zero.

use vstd::prelude::*;
use crate::extract::PositionSpec;
use crate::message::Severity;

verus! {

/// A 0-based editor position.
#[derive(Clone, Copy, Debug, PartialEq, Eq, Structural)]
pub struct Position {
    pub line: u32,
    pub character: u32,
}

/// A half-open editor range `[start, end)`.
#[derive(Clone, Copy, Debug, PartialEq, Eq, Structural)]
pub struct Range {
    pub start: Position,
    pub end: Position,
}

impl Range {
    /// The degenerate range at the very start of the document.
    pub fn zero() -> (r: Range)
        ensures
            r == spec_zero_range(),
    {
        Range { start: Position { line: 0, character: 0 }, end: Position { line: 0, character: 0 } }
    }
}

/// The degenerate range at the very start of the document.
pub open spec fn spec_zero_range() -> Range {
    Range { start: Position { line: 0, character: 0 }, end: Position { line: 0, character: 0 } }
}

/// One diagnostic, ready to publish.
#[derive(Debug)]
pub struct Diagnostic {
    pub range: Range,
    pub severity: Option<Severity>,
    pub message: Vec<u8>,
}

/// The mathematical value of a `Diagnostic`.
pub struct SpecDiagnostic {
    pub range: Range,
    pub severity: Option<Severity>,
    pub message: Seq<u8>,
}

impl View for Diagnostic {
    type V = SpecDiagnostic;

    open spec fn view(&self) -> SpecDiagnostic {
        SpecDiagnostic { range: self.range, severity: self.severity, message: self.message@ }
    }
}

impl DeepView for Diagnostic {
    type V = SpecDiagnostic;

    open spec fn deep_view(&self) -> SpecDiagnostic {
        self.view()
    }
}

/// 1-based to 0-based: subtract one, clamping values below one to zero.
pub open spec fn sub1_clamp(v: u32) -> u32 {
    if v >= 1 {
        (v - 1) as u32
    } else {
        0
    }
}

/// Saturating addition of a length to a column.
pub open spec fn add_clamp(c: u32, n: nat) -> u32 {
    if c + n <= u32::MAX {
        (c + n) as u32
    } else {
        u32::MAX
    }
}

/// The synthesized range of a block: extracted position plus column policy.
pub open spec fn spec_range(pos: PositionSpec, msg_len: nat) -> Range {
    let ls = match pos.line_start {
        Some(v) => sub1_clamp(v),
        None => 0,
    };
    let le = match pos.line_end {
        Some(v) => sub1_clamp(v),
        None => ls,
    };
    match (pos.col_start, pos.col_end) {
        (Some(cs), Some(ce)) => Range {
            start: Position { line: ls, character: cs },
            end: Position { line: le, character: ce },
        },
        (Some(cs), None) => Range {
            start: Position { line: ls, character: cs },
            end: Position { line: le, character: add_clamp(cs, msg_len) },
        },
        (None, _) => Range {
            start: Position { line: ls, character: 0 },
            end: Position { line: le, character: 0 },
        },
    }
}

/// Exec counterpart of `spec_range`.
pub fn synthesize_range(pos: PositionSpec, msg_len: usize) -> (r: Range)
    ensures
        r == spec_range(pos, msg_len as nat),
{
    let ls: u32 = match pos.line_start {
        Some(v) => if v >= 1 {
            v - 1
        } else {
            0
        },
        None => 0,
    };
    let le: u32 = match pos.line_end {
        Some(v) => if v >= 1 {
            v - 1
        } else {
            0
        },
        None => ls,
    };
    match (pos.col_start, pos.col_end) {
        (Some(cs), Some(ce)) => Range {
            start: Position { line: ls, character: cs },
            end: Position { line: le, character: ce },
        },
        (Some(cs), None) => {
            let ec: u32 = if msg_len as u64 >= u32::MAX as u64 {
                u32::MAX
            } else {
                let sum: u64 = cs as u64 + msg_len as u64;
                if sum <= u32::MAX as u64 {
                    sum as u32
                } else {
                    u32::MAX
                }
            };
            Range {
                start: Position { line: ls, character: cs },
                end: Position { line: le, character: ec },
            }
        },
        (None, _) => Range {
            start: Position { line: ls, character: 0 },
            end: Position { line: le, character: 0 },
        },
    }
}

} // verus!
