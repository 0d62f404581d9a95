//! Strings as sequences of characters, and what this crate needs to know of
//! the standard library's strings beyond what `vstd` says.

use vstd::prelude::*;

verus! {

/// The texts of a row of strings, each as its sequence of characters.
pub open spec fn texts(strings: Seq<String>) -> Seq<Seq<char>> {
    strings.map_values(|s: String| s@)
}

/// `String::push` appends the character to the end of the string and leaves
/// the rest as it was.
pub assume_specification[ String::push ](s: &mut String, c: char)
    ensures
        final(s)@ == old(s)@.push(c),
;

} // verus!
