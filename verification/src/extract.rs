//! Extraction of a possibly-partial source position from a block's header
//! line.
//!
//! The cross-line shape is tried first (its full four-number form must match),
//! then the single-line shape, then the bare `line L` shape. Each number is
//! the checker's 1-based value, parsed but not yet converted to the editor's
//! 0-based convention.

use vstd::prelude::*;
use crate::patterns::{
    caps_bare,
    caps_cross,
    caps_single,
    find_bare,
    find_cross,
    find_single,
    first_bare_from,
    first_cross_from,
    first_single_from,
    lemma_first_bare_found,
    lemma_first_cross_found,
    lemma_first_single_found,
};
use crate::bytes::scan_number;

verus! {

/// A possibly-partial location extracted from a block. Values are the
/// checker's own (1-based lines); absent parts are filled in by the
/// synthesizer later.
#[derive(Clone, Copy, Debug)]
pub struct PositionSpec {
    pub line_start: Option<u32>,
    pub line_end: Option<u32>,
    pub col_start: Option<u32>,
    pub col_end: Option<u32>,
}

/// What extraction yields on a header line: the first shape that matches, in
/// priority order, with its captured numbers.
pub open spec fn spec_extract_header(h: Seq<u8>) -> PositionSpec {
    match first_cross_from(h, 0) {
        Some(i) => {
            let (l1, c1, l2, c2) = caps_cross(h, i);
            PositionSpec { line_start: l1, line_end: l2, col_start: c1, col_end: c2 }
        },
        None => match first_single_from(h, 0) {
            Some(i) => {
                let (l, c1, c2) = caps_single(h, i);
                PositionSpec { line_start: l, line_end: l, col_start: c1, col_end: c2 }
            },
            None => match first_bare_from(h, 0) {
                Some(i) => PositionSpec {
                    line_start: caps_bare(h, i),
                    line_end: None,
                    col_start: None,
                    col_end: None,
                },
                None => PositionSpec {
                    line_start: None,
                    line_end: None,
                    col_start: None,
                    col_end: None,
                },
            },
        },
    }
}

/// Apply the header shapes in priority order and parse the captures.
pub fn extract_header(h: &Vec<u8>) -> (r: PositionSpec)
    ensures
        r == spec_extract_header(h@),
{
    let n: usize = h.len();
    if let Some(i) = find_cross(h) {
        proof {
            lemma_first_cross_found(h@, 0);
        }
        let (e1, l1) = scan_number(h, i + 5);
        let (e2, c1) = scan_number(h, e1 + 9);
        let (e3, l2) = scan_number(h, e2 + 8);
        let (_e4, c2) = scan_number(h, e3 + 9);
        PositionSpec { line_start: l1, line_end: l2, col_start: c1, col_end: c2 }
    } else if let Some(i) = find_single(h) {
        proof {
            lemma_first_single_found(h@, 0);
        }
        let (e1, l) = scan_number(h, i + 5);
        let (e2, c1) = scan_number(h, e1 + 9);
        let (_e3, c2) = scan_number(h, e2 + 3);
        PositionSpec { line_start: l, line_end: l, col_start: c1, col_end: c2 }
    } else if let Some(i) = find_bare(h) {
        proof {
            lemma_first_bare_found(h@, 0);
        }
        let (_e1, l) = scan_number(h, i + 5);
        PositionSpec { line_start: l, line_end: None, col_start: None, col_end: None }
    } else {
        PositionSpec { line_start: None, line_end: None, col_start: None, col_end: None }
    }
}

} // verus!
