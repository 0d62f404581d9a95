//! The executable search configuration: how it is built from the values of
//! the command line, and how it judges an entry.

use crate::config::{SearchConfig, KIB};
use crate::entry::{flag_type, Entry, EntryType, EntryView};
use crate::matcher::{names_match, regex_matches, NameSet};
use crate::pattern::glob_to_regex_spec;
use crate::text::texts;
use vstd::prelude::*;
use vstd::string::*;

verus! {

/// A search configuration, fixed once it is built.
#[derive(Debug)]
pub struct Input {
    pub paths: Vec<String>,
    names: Option<NameSet>,
    types: Vec<EntryType>,
    max_depth: Option<usize>,
    min_depth: Option<usize>,
    size: Option<i64>,
}

/// Why a configuration could not be built.
#[derive(Debug)]
pub enum ConfigError {
    /// A type flag other than `f`, `d` and `l`.
    UnknownType(String),
    /// The engine refused the regular expressions of the name patterns.
    InvalidPattern(regex::Error),
}

/// A depth bound as the configuration holds it.
pub open spec fn depth_bound(depth: Option<usize>) -> Option<nat> {
    match depth {
        None => None,
        Some(d) => Some(d as nat),
    }
}

/// A size threshold as the configuration holds it.
pub open spec fn size_threshold(size: Option<i64>) -> Option<int> {
    match size {
        None => None,
        Some(n) => Some(n as int),
    }
}

impl View for Input {
    type V = SearchConfig;

    closed spec fn view(&self) -> SearchConfig {
        SearchConfig {
            paths: texts(self.paths@),
            types: self.types@.to_set(),
            names: match self.names {
                None => None,
                Some(set) => Some(set.patterns()),
            },
            max_depth: depth_bound(self.max_depth),
            min_depth: depth_bound(self.min_depth),
            size: size_threshold(self.size),
        }
    }
}

/// The path that is searched when none is given.
pub open spec fn default_path() -> Seq<char> {
    seq!['.']
}

/// The roots of a search: those given, or the default path alone.
pub open spec fn search_roots(paths: Seq<Seq<char>>) -> Seq<Seq<char>> {
    if paths.len() == 0 {
        seq![default_path()]
    } else {
        paths
    }
}

/// Whether every flag names a type.
pub open spec fn all_flags_known(flags: Seq<Seq<char>>) -> bool {
    forall|i: int| 0 <= i < flags.len() ==> (#[trigger] flag_type(flags[i])) is Some
}

/// Whether `i` is the place of the first flag that names no type.
pub open spec fn is_first_unknown_flag(flags: Seq<Seq<char>>, i: int) -> bool {
    &&& 0 <= i < flags.len()
    &&& flag_type(flags[i]) is None
    &&& all_flags_known(flags.take(i))
}

/// The set of types that a list of flags names.
pub open spec fn flag_types(flags: Seq<Seq<char>>) -> Set<EntryType> {
    Set::new(|t: EntryType| flags.map_values(|f: Seq<char>| flag_type(f)).contains(Some(t)))
}

/// The regular expressions of a list of globs: `None` for the empty list,
/// which leaves the name filter inactive.
pub open spec fn name_patterns(globs: Seq<Seq<char>>) -> Option<Seq<Seq<char>>> {
    if globs.len() == 0 {
        None
    } else {
        Some(globs.map_values(|g: Seq<char>| glob_to_regex_spec(g)))
    }
}

/// Whether `kind` occurs among `types`.
fn contains_type(types: &Vec<EntryType>, kind: EntryType) -> (found: bool)
    ensures
        found == types@.contains(kind),
{
    let mut i: usize = 0;
    while i < types.len()
        invariant
            i <= types.len(),
            forall|j: int| 0 <= j < i ==> types@[j] != kind,
        decreases types.len() - i,
    {
        if types[i] == kind {
            return true;
        }
        i += 1;
    }
    false
}

impl Input {
    /// Puts a configuration together from its parts, once the engine has
    /// answered. `compiled` is `None` where no name pattern was given, and
    /// otherwise what the engine made of the patterns: its refusal is the
    /// configuration's error, its set the name filter. Where no path is
    /// given, the default path is searched.
    pub fn assemble(
        paths: Vec<String>,
        types: Vec<EntryType>,
        compiled: Option<Result<NameSet, regex::Error>>,
        max_depth: Option<usize>,
        min_depth: Option<usize>,
        size: Option<i64>,
    ) -> (res: Result<Input, ConfigError>)
        ensures
            compiled matches Some(Err(refusal)) ==> res matches Err(
                ConfigError::InvalidPattern(e),
            ) && e == refusal,
            !(compiled matches Some(Err(_))) ==> res is Ok,
            res matches Ok(input) ==> {
                &&& input@.paths == search_roots(texts(paths@))
                &&& input@.types == types@.to_set()
                &&& input@.names == match compiled {
                    Some(Ok(set)) => Some(set.patterns()),
                    _ => None,
                }
                &&& input@.max_depth == depth_bound(max_depth)
                &&& input@.min_depth == depth_bound(min_depth)
                &&& input@.size == size_threshold(size)
            },
    {
        let names = match compiled {
            None => None,
            Some(Ok(set)) => Some(set),
            Some(Err(refusal)) => {
                return Err(ConfigError::InvalidPattern(refusal));
            },
        };
        let mut paths = paths;
        if paths.len() == 0 {
            proof {
                reveal_strlit(".");
            }
            paths.push(String::from_str("."));
            assert(paths@[0]@ =~= default_path());
        }
        Ok(Input { paths, names, types, max_depth, min_depth, size })
    }

    /// The roots of the search, in the order they are searched.
    pub fn roots(&self) -> (r: &Vec<String>)
        ensures
            texts(r@) == self@.paths,
    {
        &self.paths
    }

    /// Whether the name filter is active.
    pub fn filters_by_name(&self) -> (active: bool)
        ensures
            active == self@.name_active(),
    {
        self.names.is_some()
    }

    /// Whether the size filter is active.
    pub fn filters_by_size(&self) -> (active: bool)
        ensures
            active == self@.size_active(),
    {
        self.size.is_some()
    }

    /// The type filter.
    pub fn type_ok(&self, entry: &Entry) -> (ok: bool)
        ensures
            ok == self@.type_ok(entry@),
    {
        if self.types.len() == 0 {
            assert(self.types@.to_set() =~= Set::<EntryType>::empty());
            return true;
        }
        assert(self.types@.to_set().contains(self.types@[0]));
        match entry.kind {
            None => false,
            Some(kind) => contains_type(&self.types, kind),
        }
    }

    /// The name filter.
    pub fn name_ok(&self, entry: &Entry) -> (ok: bool)
        ensures
            ok == self@.name_ok(entry@),
    {
        match &self.names {
            None => true,
            Some(set) => names_match(set, entry.name.as_str()),
        }
    }

    /// The upper bound on depth.
    pub fn max_depth_ok(&self, entry: &Entry) -> (ok: bool)
        ensures
            ok == self@.max_depth_ok(entry@),
    {
        match self.max_depth {
            None => true,
            Some(bound) => entry.depth <= bound,
        }
    }

    /// The lower bound on depth.
    pub fn min_depth_ok(&self, entry: &Entry) -> (ok: bool)
        ensures
            ok == self@.min_depth_ok(entry@),
    {
        match self.min_depth {
            None => true,
            Some(bound) => entry.depth >= bound,
        }
    }

    /// The size filter.
    pub fn size_ok(&self, entry: &Entry) -> (ok: bool)
        ensures
            ok == self@.size_ok(entry@),
    {
        match (self.size, entry.kind) {
            (Some(n), Some(EntryType::File)) => {
                let kib: u64 = entry.size / KIB;
                if n >= 0 {
                    kib > n as u64
                } else if n == i64::MIN {
                    true
                } else {
                    kib < (-n) as u64
                }
            },
            _ => true,
        }
    }

    /// The combined decision: the entry passes every filter.
    pub fn accepts(&self, entry: &Entry) -> (ok: bool)
        ensures
            ok == self@.accepts(entry@),
    {
        self.type_ok(entry) && self.name_ok(entry) && self.max_depth_ok(entry)
            && self.min_depth_ok(entry) && self.size_ok(entry)
    }
}

/// Builds the configuration from the values of the command line: the root
/// paths, the type flags, the glob patterns for the base name, the two depth
/// bounds and the size threshold.
///
/// A flag that names no type fails the configuration, the first one being
/// reported. Without a glob the name filter stays inactive and nothing else
/// can fail. With globs, each is translated and the engine compiles the
/// translations: whether it accepts them is the engine's to say.
pub fn get_args(
    paths: Vec<String>,
    types: &Vec<String>,
    names: &Vec<String>,
    max_depth: Option<usize>,
    min_depth: Option<usize>,
    size: Option<i64>,
) -> (res: Result<Input, ConfigError>)
    ensures
        !all_flags_known(texts(types@)) <==> res matches Err(ConfigError::UnknownType(_)),
        res matches Err(ConfigError::UnknownType(flag)) ==> exists|i: int|
            is_first_unknown_flag(texts(types@), i) && flag@ == #[trigger] texts(types@)[i],
        res matches Err(ConfigError::InvalidPattern(_)) ==> names@.len() > 0,
        all_flags_known(texts(types@)) && names@.len() == 0 ==> res is Ok,
        res matches Ok(input) ==> {
            &&& input@.paths == search_roots(texts(paths@))
            &&& input@.types == flag_types(texts(types@))
            &&& input@.names == name_patterns(texts(names@))
            &&& input@.max_depth == depth_bound(max_depth)
            &&& input@.min_depth == depth_bound(min_depth)
            &&& input@.size == size_threshold(size)
        },
{
    let ghost flags = texts(types@);
    let mut kinds: Vec<EntryType> = Vec::new();
    let mut i: usize = 0;
    while i < types.len()
        invariant
            i <= types.len(),
            flags == texts(types@),
            flags.len() == types@.len(),
            all_flags_known(flags.take(i as int)),
            kinds@ == flags.take(i as int).map_values(|f: Seq<char>| flag_type(f)->0),
        decreases types.len() - i,
    {
        let flag = &types[i];
        match EntryType::from_flag(flag.as_str()) {
            None => {
                assert(is_first_unknown_flag(flags, i as int));
                return Err(ConfigError::UnknownType(flag.clone()));
            },
            Some(kind) => {
                kinds.push(kind);
            },
        }
        proof {
            let next = flags.take(i + 1);
            assert forall|j: int| 0 <= j < next.len() implies (#[trigger] flag_type(
                next[j],
            )) is Some by {
                if j < i {
                    assert(next[j] == flags.take(i as int)[j]);
                }
            }
        }
        i += 1;
    }
    proof {
        assert(flags.take(i as int) == flags);
        lemma_known_flags_to_set(flags);
    }
    if names.len() == 0 {
        return Input::assemble(paths, kinds, None, max_depth, min_depth, size);
    }
    let compiled = NameSet::from_globs(names);
    Input::assemble(paths, kinds, Some(compiled), max_depth, min_depth, size)
}

/// The name filter of a configuration built from globs is their
/// alternation: without a glob it passes every entry, and with globs it
/// passes those whose base name the engine matches against the translation
/// of at least one of them.
pub proof fn lemma_name_filter_is_alternation(
    cfg: SearchConfig,
    globs: Seq<Seq<char>>,
    e: EntryView,
)
    requires
        cfg.names == name_patterns(globs),
    ensures
        cfg.name_ok(e) <==> globs.len() == 0 || exists|i: int|
            0 <= i < globs.len() && regex_matches(glob_to_regex_spec(#[trigger] globs[i]), e.name),
{
    if globs.len() > 0 {
        let patterns = globs.map_values(|g: Seq<char>| glob_to_regex_spec(g));
        if cfg.name_ok(e) {
            let i = choose|i: int|
                0 <= i < patterns.len() && #[trigger] regex_matches(patterns[i], e.name);
            assert(patterns[i] == glob_to_regex_spec(globs[i]));
        }
        if exists|i: int|
            0 <= i < globs.len() && regex_matches(glob_to_regex_spec(#[trigger] globs[i]), e.name) {
            let i = choose|i: int|
                0 <= i < globs.len() && regex_matches(
                    glob_to_regex_spec(#[trigger] globs[i]),
                    e.name,
                );
            assert(regex_matches(patterns[i], e.name));
        }
    }
}

/// Where every flag names a type, the types in a row make the same set as
/// the flags name.
proof fn lemma_known_flags_to_set(flags: Seq<Seq<char>>)
    requires
        all_flags_known(flags),
    ensures
        flags.map_values(|f: Seq<char>| flag_type(f)->0).to_set() == flag_types(flags),
{
    let kinds = flags.map_values(|f: Seq<char>| flag_type(f)->0);
    let named = flags.map_values(|f: Seq<char>| flag_type(f));
    assert forall|t: EntryType| kinds.to_set().contains(t) <==> flag_types(flags).contains(
        t,
    ) by {
        if kinds.contains(t) {
            let i = choose|i: int| 0 <= i < kinds.len() && kinds[i] == t;
            assert(named[i] == Some(t));
        }
        if named.contains(Some(t)) {
            let i = choose|i: int| 0 <= i < named.len() && named[i] == Some(t);
            assert(kinds[i] == t);
        }
    }
}

} // verus!
