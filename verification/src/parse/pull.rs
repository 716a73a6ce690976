//! Parser for `git pull` output.
//!
//! `git pull` has no stable machine-readable output format, so this parser
//! classifies the combined stdout/stderr text via case-sensitive substring
//! matching. The flags are non-exclusive — a merge commit and conflicts, for
//! instance, can both be set on the same pull. This approach is fragile to
//! git localization and to wording changes across git versions; the `raw`
//! field is retained so callers can fall back to their own inspection when
//! the flags don't fit.
use vstd::prelude::*;

use crate::text::{chars_of, contains_lit, contains_str, text_of};

verus! {

/// Classification of `git pull` output.
#[derive(Debug, Clone, PartialEq, Eq)]
pub struct PullResult {
    /// Output contains `Already up to date`.
    pub already_up_to_date: bool,
    /// Output contains `Fast-forward`.
    pub fast_forward: bool,
    /// Output contains `Merge made by`.
    pub merge_commit: bool,
    /// Output contains `CONFLICT`.
    pub conflicts: bool,
    /// The original text this result was classified from.
    pub raw: String,
}

/// Classify the combined stdout/stderr of `git pull`.
pub fn parse_pull(output: &str) -> (r: PullResult)
    ensures
        r.already_up_to_date == contains_str(output@, "Already up to date"@),
        r.fast_forward == contains_str(output@, "Fast-forward"@),
        r.merge_commit == contains_str(output@, "Merge made by"@),
        r.conflicts == contains_str(output@, "CONFLICT"@),
        r.raw@ == output@,
{
    let s = chars_of(output);
    PullResult {
        already_up_to_date: contains_lit(&s, "Already up to date"),
        fast_forward: contains_lit(&s, "Fast-forward"),
        merge_commit: contains_lit(&s, "Merge made by"),
        conflicts: contains_lit(&s, "CONFLICT"),
        raw: text_of(&s),
    }
}

} // verus!
