//! Glob-pattern matching, consumed as a capability from the `glob` crate.
use vstd::prelude::*;

verus! {

/// Whether the glob pattern written as `pattern` matches the path string
/// `path`. The result is a function of the two strings alone.
pub uninterp spec fn glob_match(pattern: Seq<char>, path: Seq<char>) -> bool;

/// Relies on `glob::Pattern::new` and `glob::Pattern::matches`: whether the
/// pattern matches the path's string form, under the crate's default match
/// options. Both are deterministic in the two strings; a pattern that does
/// not parse matches nothing.
#[verifier::external_body]
pub(crate) fn glob_matches(pattern: &str, path: &str) -> (r: bool)
    ensures
        r == glob_match(pattern@, path@),
{
    match glob::Pattern::new(pattern) {
        Ok(p) => p.matches(path),
        Err(_) => false,
    }
}

} // verus!
