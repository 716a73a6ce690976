//! Parser for `git rebase` output.
//!
//! `git rebase` has no stable machine-readable output format, so this parser
//! classifies the combined stdout/stderr text via case-sensitive substring
//! matching. Detection is locale-dependent: it matches English message
//! strings and will miss non-English git locales.
//!
//! All three booleans are legitimately `false` on a normal, non-fast-forward
//! successful rebase (`Successfully rebased and updated refs/heads/...`),
//! where only `raw` is meaningful.
//!
//! `--abort` / `--continue` / `--skip` / `--quit` output does not describe a
//! rebase outcome.
use vstd::prelude::*;

use crate::text::{chars_of, contains_lit, contains_str, text_of};

verus! {

/// Classification of `git rebase` output.
#[derive(Debug, Clone, PartialEq, Eq)]
pub struct RebaseResult {
    /// Output contains `is up to date`.
    pub up_to_date: bool,
    /// Output contains `Fast-forwarded`.
    pub fast_forward: bool,
    /// Output contains `CONFLICT`.
    pub conflicts: bool,
    /// The original text this result was classified from.
    pub raw: String,
}

impl Default for RebaseResult {
    fn default() -> (r: Self)
        ensures
            !r.up_to_date,
            !r.fast_forward,
            !r.conflicts,
            r.raw@.len() == 0,
    {
        RebaseResult { up_to_date: false, fast_forward: false, conflicts: false, raw: String::new() }
    }
}

/// Classify the combined stdout/stderr of `git rebase`.
pub fn parse_rebase(output: &str) -> (r: RebaseResult)
    ensures
        r.up_to_date == contains_str(output@, "is up to date"@),
        r.fast_forward == contains_str(output@, "Fast-forwarded"@),
        r.conflicts == contains_str(output@, "CONFLICT"@),
        r.raw@ == output@,
{
    let s = chars_of(output);
    RebaseResult {
        up_to_date: contains_lit(&s, "is up to date"),
        fast_forward: contains_lit(&s, "Fast-forwarded"),
        conflicts: contains_lit(&s, "CONFLICT"),
        raw: text_of(&s),
    }
}

} // verus!
