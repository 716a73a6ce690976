//! Parser for `git merge` stdout.
//!
//! `git merge` prints a human-readable summary rather than a stable
//! machine format. This parser classifies the two outcomes that are
//! detectable from fixed substrings: a fast-forward (`Fast-forward`) and a
//! no-op merge (`Already up to date.`). Neither substring present means a
//! normal merge commit was created.
//!
//! `--abort` / `--continue` output matches neither substring and does not
//! describe a merge outcome.
use vstd::prelude::*;

use crate::text::{chars_of, contains_lit, contains_str};

verus! {

/// Parsed result of a `git merge` invocation.
///
/// `fast_forward` and `already_up_to_date` are mutually exclusive; when both
/// are `false`, the merge produced a normal merge commit.
#[derive(Debug, Clone, Copy, PartialEq, Eq)]
pub struct MergeResult {
    /// Merge resolved as a fast-forward (`stdout` contains `"Fast-forward"`
    /// and does not report the branch already up to date).
    pub fast_forward: bool,
    /// Branch was already up to date (`stdout` contains `"Already up to date."`).
    pub already_up_to_date: bool,
}

impl Default for MergeResult {
    fn default() -> (r: Self)
        ensures
            !r.fast_forward,
            !r.already_up_to_date,
    {
        MergeResult { fast_forward: false, already_up_to_date: false }
    }
}

/// Classify the stdout of `git merge`.
///
/// `Already up to date.` means nothing was merged, so it wins over a
/// `Fast-forward` that appears in the same output: at most one flag is set.
pub fn parse_merge(stdout: &str) -> (r: MergeResult)
    ensures
        r.already_up_to_date == contains_str(stdout@, "Already up to date."@),
        r.fast_forward == (contains_str(stdout@, "Fast-forward"@) && !contains_str(
            stdout@,
            "Already up to date."@,
        )),
        !(r.fast_forward && r.already_up_to_date),
{
    let s = chars_of(stdout);
    let up_to_date = contains_lit(&s, "Already up to date.");
    MergeResult {
        fast_forward: contains_lit(&s, "Fast-forward") && !up_to_date,
        already_up_to_date: up_to_date,
    }
}

} // verus!
