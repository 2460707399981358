//! Regular expressions, compiled by the `regex` crate, each kept together
//! with the pattern it was compiled from.

use vstd::prelude::*;

verus! {

/// The pattern of the suffix that Apple Music appends to artist names
/// (white space, a hyphen or an em dash, white space, then the rest of the
/// line, such as an album name).
pub const ARTIST_SUFFIX_PATTERN: &'static str = "\\s+[\\-—]\\s+.*";

/// `s` holds neither a hyphen nor an em dash.
pub open spec fn no_dash(s: Seq<char>) -> bool {
    forall|i: int| 0 <= i < s.len() ==> s[i] != '-' && s[i] != '—'
}

#[verifier::external_type_specification]
#[verifier::external_body]
pub struct ExRegex(regex::Regex);

/// A compiled regular expression together with the pattern it was compiled
/// from. Only `compile_pattern` makes one, so the two always agree.
pub struct CompiledPattern {
    regex: regex::Regex,
    pattern: Ghost<Seq<char>>,
}

impl CompiledPattern {
    /// The pattern this expression was compiled from.
    pub closed spec fn pattern(&self) -> Seq<char> {
        self.pattern@
    }
}

/// Compiles `pattern` with `regex::Regex::new`, which returns an error only
/// for invalid syntax or an expression over the size limits. The contract
/// claims that the compiled value remembers its pattern, and that the
/// artist-suffix pattern (valid syntax of a few characters) compiles; of
/// other patterns it does not say whether they compile.
#[verifier::external_body]
pub(crate) fn compile_pattern(pattern: &str) -> (r: Option<CompiledPattern>)
    ensures
        r matches Some(c) ==> c.pattern() == pattern@,
        pattern@ == ARTIST_SUFFIX_PATTERN@ ==> r is Some,
{
    match regex::Regex::new(pattern) {
        Ok(regex) => Some(CompiledPattern { regex, pattern: Ghost(pattern@) }),
        Err(_) => None,
    }
}

/// What `regex::Regex::replace_all` returns: `haystack` with every
/// non-overlapping, leftmost-first match of `pattern` replaced by
/// `replacement` (with `$` group references expanded).
pub uninterp spec fn regex_replace_all(
    pattern: Seq<char>,
    haystack: Seq<char>,
    replacement: Seq<char>,
) -> Seq<char>;

/// `regex::Regex::replace_all`, made owned. The contract claims that the
/// result is `regex_replace_all` of the pattern, the haystack and the
/// replacement, and, as the method's documentation says ("If no match is
/// found, then the haystack is returned unchanged"), that a haystack without
/// a match comes back unchanged: every match of the artist-suffix pattern
/// holds a hyphen or an em dash (its character class `[\-—]`), so a haystack
/// with neither has none. The regex semantics beyond that are not stated.
#[verifier::external_body]
pub(crate) fn replace_all_matches(compiled: &CompiledPattern, haystack: &str, replacement: &str) -> (r:
    String)
    ensures
        r@ == regex_replace_all(compiled.pattern(), haystack@, replacement@),
        compiled.pattern() == ARTIST_SUFFIX_PATTERN@ && no_dash(haystack@) ==> r@ == haystack@,
{
    compiled.regex.replace_all(haystack, replacement).into_owned()
}

} // verus!
