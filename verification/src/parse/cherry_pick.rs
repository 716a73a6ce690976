//! Parser for `git cherry-pick` output.
//!
//! `git cherry-pick` has no stable machine-readable output format, so this
//! parser classifies the combined stdout/stderr text via a substring check.
//! This is fragile to git localization and to wording changes across git
//! versions; the `raw` field is retained so callers can fall back to their
//! own inspection when the flag doesn't fit.
use vstd::prelude::*;

use crate::command::CommandOutput;
use crate::text::{chars_of, contains_lit, contains_str};

verus! {

/// Outcome of a `git cherry-pick` invocation, parsed from its output.
#[derive(Debug, Clone, PartialEq, Eq)]
pub struct CherryPickResult {
    /// True if the pick stopped on a conflict (heuristic: output contains
    /// `"CONFLICT"`).
    pub conflicts: bool,
    /// Raw combined stdout/stderr text retained for callers that need it.
    pub raw: String,
}

impl Default for CherryPickResult {
    fn default() -> (r: Self)
        ensures
            !r.conflicts,
            r.raw@.len() == 0,
    {
        CherryPickResult { conflicts: false, raw: String::new() }
    }
}

/// Classify the stdout/stderr of a `git cherry-pick` invocation into a
/// [`CherryPickResult`].
///
/// Matching is case-sensitive substring search, so it is sensitive to git's
/// locale and to output-wording changes across versions.
pub fn parse_cherry_pick(output: &CommandOutput) -> (r: CherryPickResult)
    ensures
        r.raw@ == crate::command::lossy_text(output.stdout@) + output.stderr@,
        vstd::utf8::valid_utf8(output.stdout@) ==> r.raw@ == vstd::utf8::decode_utf8(
            output.stdout@,
        ) + output.stderr@,
        r.conflicts == contains_str(r.raw@, "CONFLICT"@),
{
    let raw = output.stdout_str().concat(output.stderr.as_str());
    let conflicts = contains_lit(&chars_of(raw.as_str()), "CONFLICT");
    CherryPickResult { conflicts, raw }
}

} // verus!
