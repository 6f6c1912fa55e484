//! The contracts that this library takes on trust: one for a comparison of
//! the standard library, one for the pattern matcher of the `glob` crate.

use vstd::prelude::*;

verus! {

/// `str`'s `PartialEq::eq`: two string slices are equal exactly when they
/// hold the same characters.
pub assume_specification[ <str as PartialEq>::eq ](a: &str, b: &str) -> (same: bool)
    ensures
        same == (a@ == b@),
;

/// A character that stands for itself in a `glob` pattern on every platform:
/// neither a wildcard, nor the opening of a character class, nor a path
/// separator.
pub open spec fn is_plain(c: char) -> bool {
    c != '*' && c != '?' && c != '[' && c != '/' && c != '\\'
}

/// A pattern made of one `*` and then plain characters only.
pub open spec fn is_tail_pattern(pattern: Seq<char>) -> bool {
    &&& pattern.len() >= 1
    &&& pattern[0] == '*'
    &&& forall|i: int| 1 <= i < pattern.len() ==> is_plain(#[trigger] pattern[i])
}

/// `glob::Pattern::new` on `pattern`, then `glob::Pattern::matches` on
/// `text`, with the crate's default match options.
///
/// Trusted: in a pattern, `*` matches any sequence of characters, the empty
/// one too, and a plain character matches itself and nothing else. So a
/// pattern of one `*` and then plain characters compiles, and it matches
/// exactly the texts that end with those characters.
#[verifier::external_body]
pub(crate) fn glob_matches(pattern: &str, text: &str) -> (hit: bool)
    requires
        is_tail_pattern(pattern@),
    ensures
        hit == pattern@.skip(1).is_suffix_of(text@),
{
    match glob::Pattern::new(pattern) {
        Ok(compiled) => compiled.matches(text),
        Err(_) => false,
    }
}

} // verus!
