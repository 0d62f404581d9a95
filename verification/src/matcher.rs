//! The boundary to the regular-expression engine. What the engine answers is
//! named here and believed, not proved.
//!
//! The engine answers by the compiled form of a set, which depends on the
//! options the set was built with as well as on its patterns. A `NameSet` is
//! therefore made here and nowhere else, always with the engine's default
//! options, so that its patterns alone say what it matches.

use crate::pattern::{glob_to_regex_spec, name_regexes};
use crate::text::texts;
use vstd::prelude::*;

verus! {

/// `regex::RegexSet`, a compiled set of regular expressions. Nothing of its
/// inside is known here.
#[verifier::external_type_specification]
#[verifier::external_body]
pub struct ExRegexSet(regex::RegexSet);

/// `regex::Error`, the engine's reason for refusing a pattern. It is carried
/// through unread.
#[verifier::external_type_specification]
#[verifier::external_body]
pub struct ExRegexError(regex::Error);

/// The patterns that a set was compiled from, in the order they were given:
/// what `RegexSet::patterns` returns.
pub uninterp spec fn set_patterns(set: regex::RegexSet) -> Seq<Seq<char>>;

/// Whether the regular expression `pattern` matches `haystack` under the
/// engine's default options: what `RegexSet::is_match` answers for the set
/// that `RegexSet::new` compiles from this one pattern.
pub uninterp spec fn regex_matches(pattern: Seq<char>, haystack: Seq<char>) -> bool;

/// Whether at least one of the patterns matches the haystack.
pub open spec fn any_pattern_matches(patterns: Seq<Seq<char>>, haystack: Seq<char>) -> bool {
    exists|i: int| 0 <= i < patterns.len() && #[trigger] regex_matches(patterns[i], haystack)
}

/// A set of regular expressions compiled with the engine's default options.
/// The field is private and only `compile_set` fills it.
#[derive(Debug)]
pub struct NameSet {
    set: regex::RegexSet,
}

/// Calls `RegexSet::new` on the patterns, which compiles them with the
/// default options. The engine decides whether they compile; a set that
/// comes back holds exactly the patterns handed in, in their order.
#[verifier::external_body]
fn compile_set(patterns: &Vec<String>) -> (res: Result<NameSet, regex::Error>)
    ensures
        res matches Ok(names) ==> set_patterns(names.set) == texts(patterns@),
{
    match regex::RegexSet::new(patterns) {
        Ok(set) => Ok(NameSet { set }),
        Err(refusal) => Err(refusal),
    }
}

/// Calls `RegexSet::is_match` on a set that `RegexSet::new` compiled. It
/// answers true if and only if one of the regular expressions of the set
/// matches the haystack.
#[verifier::external_body]
pub(crate) fn names_match(names: &NameSet, haystack: &str) -> (found: bool)
    ensures
        found == (exists|i: int|
            0 <= i < names.patterns().len() && #[trigger] regex_matches(
                names.patterns()[i],
                haystack@,
            )),
{
    names.set.is_match(haystack)
}

impl NameSet {
    /// The regular expressions of the set, in the order they were given.
    pub closed spec fn patterns(&self) -> Seq<Seq<char>> {
        set_patterns(self.set)
    }

    /// Translates each glob and has the engine compile the translations.
    /// Whether it accepts them is the engine's to say; a set that comes back
    /// holds the translation of every glob, in the order of the globs.
    pub fn from_globs(globs: &Vec<String>) -> (res: Result<NameSet, regex::Error>)
        ensures
            res matches Ok(names) ==> names.patterns() == texts(globs@).map_values(
                |g: Seq<char>| glob_to_regex_spec(g),
            ),
    {
        let patterns = name_regexes(globs);
        compile_set(&patterns)
    }
}

} // verus!
