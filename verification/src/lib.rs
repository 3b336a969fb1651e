//! Translation of a static checker's free-form text report into structured,
//! position-addressed editor diagnostics.
//!
//! The library scans the checker's stdout line by line, recognizes blocks
//! introduced by a `File` header line, extracts line/column ranges from a
//! small set of textual patterns, accumulates multi-line messages, and
//! converts 1-based human-facing positions into 0-based half-open editor
//! ranges. A small session state machine decides how inbound editor events
//! drive the pipeline.

pub mod bytes;
pub mod diagnostic;
pub mod extract;
pub mod laws;
pub mod lines;
pub mod message;
pub mod patterns;
pub mod report;
pub mod session;
