//! Translation of shell-style glob patterns into anchored regular expressions.

use crate::text::texts;
use vstd::prelude::*;

verus! {

/// The characters that have a meaning of their own in a regular expression
/// and therefore must be escaped to stand for themselves.
pub open spec fn is_regex_meta(c: char) -> bool {
    c == '.' || c == '(' || c == ')' || c == '{' || c == '}' || c == '[' || c == ']' || c == '+'
        || c == '|' || c == '^' || c == '$' || c == '\\'
}

/// What one character of a glob becomes in the regular expression.
pub open spec fn translate_char(c: char) -> Seq<char> {
    if c == '*' {
        seq!['.', '*']
    } else if c == '?' {
        seq!['.']
    } else if is_regex_meta(c) {
        seq!['\\', c]
    } else {
        seq![c]
    }
}

/// The regular expression for a glob: every character translated in place,
/// the whole wrapped in start and end anchors.
pub open spec fn glob_to_regex_spec(pattern: Seq<char>) -> Seq<char> {
    seq!['^'] + pattern.flat_map(|c: char| translate_char(c)) + seq!['$']
}

/// Whether a glob holds no wildcard, so that it stands for one name only.
pub open spec fn is_literal_glob(pattern: Seq<char>) -> bool {
    forall|i: int| 0 <= i < pattern.len() ==> pattern[i] != '*' && pattern[i] != '?'
}

/// A text with a backslash put before each of its metacharacters.
pub open spec fn quoted(text: Seq<char>) -> Seq<char> {
    text.flat_map(
        |c: char|
            if is_regex_meta(c) {
                seq!['\\', c]
            } else {
                seq![c]
            },
    )
}

/// The regular expression of a glob without wildcard is the glob itself,
/// quoted, between the two anchors.
pub proof fn lemma_literal_glob_is_quoted(pattern: Seq<char>)
    requires
        is_literal_glob(pattern),
    ensures
        glob_to_regex_spec(pattern) == seq!['^'] + quoted(pattern) + seq!['$'],
{
    let translate = |c: char| translate_char(c);
    let quote = |c: char|
        if is_regex_meta(c) {
            seq!['\\', c]
        } else {
            seq![c]
        };
    assert(pattern.map_values(translate) =~= pattern.map_values(quote));
}

/// Translates a glob pattern into an anchored regular expression.
pub fn glob_to_regex(pattern: &str) -> (regex: String)
    ensures
        regex@ == glob_to_regex_spec(pattern@),
{
    let mut regex = String::new();
    regex.push('^');
    let ghost f = |c: char| translate_char(c);
    for c in it: pattern.chars()
        invariant
            it.seq() == pattern@,
            f == (|c: char| translate_char(c)),
            regex@ == seq!['^'] + pattern@.take(it.index() as int).flat_map(f),
    {
        proof {
            pattern@.lemma_flat_map_take_append(f, it.index() as int);
        }
        match c {
            '*' => {
                regex.push('.');
                regex.push('*');
            },
            '?' => {
                regex.push('.');
            },
            '.' | '(' | ')' | '{' | '}' | '[' | ']' | '+' | '|' | '^' | '$' | '\\' => {
                regex.push('\\');
                regex.push(c);
            },
            _ => {
                regex.push(c);
            },
        }
    }
    assert(pattern@.take(pattern@.len() as int) == pattern@);
    regex.push('$');
    regex
}

/// Translates every glob of a list, each on its own and in its place.
pub fn name_regexes(names: &Vec<String>) -> (patterns: Vec<String>)
    ensures
        texts(patterns@) == texts(names@).map_values(|g: Seq<char>| glob_to_regex_spec(g)),
{
    let ghost globs = texts(names@);
    let mut patterns: Vec<String> = Vec::new();
    let mut k: usize = 0;
    while k < names.len()
        invariant
            k <= names.len(),
            globs == texts(names@),
            texts(patterns@) == globs.take(k as int).map_values(
                |g: Seq<char>| glob_to_regex_spec(g),
            ),
        decreases names.len() - k,
    {
        let pattern = glob_to_regex(names[k].as_str());
        let ghost before = texts(patterns@);
        patterns.push(pattern);
        assert(texts(patterns@) =~= before.push(glob_to_regex_spec(globs[k as int])));
        assert(texts(patterns@) =~= globs.take(k + 1).map_values(
            |g: Seq<char>| glob_to_regex_spec(g),
        ));
        k += 1;
    }
    assert(globs.take(k as int) == globs);
    patterns
}

} // verus!
