//! Blank-line shaping for a stream of formatting tokens.
//!
//! A renderer emits a flat stream of line tokens. The [`intermediary::Intermediary`]
//! takes them one at a time and keeps a buffer in which blank lines stand
//! around classes, modules, conditionals, `do` blocks, comments and groups of
//! `require` statements, never more than one blank line in a row.

pub mod buffer_state;
pub mod intermediary;
pub mod line_metadata;
pub mod line_tokens;
pub mod theorems;
