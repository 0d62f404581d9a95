//! The search configuration as a mathematical value, and the filters as
//! predicates over it. Each filter is either inactive, and then true of every
//! entry, or active with one criterion; an entry is accepted when every
//! filter is true of it.

use crate::entry::{EntryType, EntryView};
use crate::matcher::any_pattern_matches;
use vstd::prelude::*;

verus! {

/// A search configuration.
pub struct SearchConfig {
    /// The roots to search, in the order given.
    pub paths: Seq<Seq<char>>,
    /// The admitted types; the empty set admits every entry.
    pub types: Set<EntryType>,
    /// The regular expressions for the base name; `None` admits every name.
    pub names: Option<Seq<Seq<char>>>,
    /// The greatest admitted depth.
    pub max_depth: Option<nat>,
    /// The least admitted depth.
    pub min_depth: Option<nat>,
    /// The size threshold in kibibytes. A threshold `n >= 0` admits files
    /// larger than `n`; a threshold `n < 0` admits files smaller than `-n`.
    pub size: Option<int>,
}

/// The number of bytes in a kibibyte.
pub const KIB: u64 = 1024;

/// A size in whole kibibytes; a started kibibyte does not count.
pub open spec fn size_in_kib(bytes: nat) -> nat {
    bytes / (KIB as nat)
}

impl SearchConfig {
    /// Whether the type filter has a criterion.
    pub open spec fn type_active(self) -> bool {
        self.types != Set::<EntryType>::empty()
    }

    /// Whether the name filter has a criterion.
    pub open spec fn name_active(self) -> bool {
        self.names is Some
    }

    /// Whether an upper bound on depth is set.
    pub open spec fn max_depth_active(self) -> bool {
        self.max_depth is Some
    }

    /// Whether a lower bound on depth is set.
    pub open spec fn min_depth_active(self) -> bool {
        self.min_depth is Some
    }

    /// Whether a size threshold is set.
    pub open spec fn size_active(self) -> bool {
        self.size is Some
    }

    /// The type filter: the entry's class is one of the admitted types.
    pub open spec fn type_ok(self, e: EntryView) -> bool {
        self.type_active() ==> e.kind is Some && self.types.contains(e.kind->0)
    }

    /// The name filter: the base name matches at least one pattern.
    pub open spec fn name_ok(self, e: EntryView) -> bool {
        self.name_active() ==> any_pattern_matches(self.names->0, e.name)
    }

    /// The upper bound on depth, inclusive.
    pub open spec fn max_depth_ok(self, e: EntryView) -> bool {
        self.max_depth_active() ==> e.depth <= self.max_depth->0
    }

    /// The lower bound on depth, inclusive.
    pub open spec fn min_depth_ok(self, e: EntryView) -> bool {
        self.min_depth_active() ==> e.depth >= self.min_depth->0
    }

    /// The size filter. It judges files only: every other entry passes.
    pub open spec fn size_ok(self, e: EntryView) -> bool {
        self.size_active() && e.kind == Some(EntryType::File) ==> if self.size->0 >= 0 {
            size_in_kib(e.size) > self.size->0
        } else {
            size_in_kib(e.size) < -(self.size->0)
        }
    }

    /// The combined decision: every filter is true of the entry.
    pub open spec fn accepts(self, e: EntryView) -> bool {
        &&& self.type_ok(e)
        &&& self.name_ok(e)
        &&& self.max_depth_ok(e)
        &&& self.min_depth_ok(e)
        &&& self.size_ok(e)
    }

    /// Whether this configuration has every filter that is active in `loose`,
    /// with the same criterion. It may have further filters active.
    pub open spec fn extends(self, loose: SearchConfig) -> bool {
        &&& loose.type_active() ==> self.types == loose.types
        &&& loose.name_active() ==> self.names == loose.names
        &&& loose.max_depth_active() ==> self.max_depth == loose.max_depth
        &&& loose.min_depth_active() ==> self.min_depth == loose.min_depth
        &&& loose.size_active() ==> self.size == loose.size
    }

    /// Whether a depth lies within the configured bounds; a bound that is
    /// not set constrains nothing.
    pub open spec fn depth_within_bounds(self, depth: nat) -> bool {
        &&& self.min_depth matches Some(least) ==> least <= depth
        &&& self.max_depth matches Some(greatest) ==> depth <= greatest
    }
}

/// An inactive filter is true of every entry, so the decision is that of the
/// other filters alone.
pub proof fn lemma_inactive_filter_is_neutral(cfg: SearchConfig, e: EntryView)
    ensures
        !cfg.type_active() ==> (cfg.accepts(e) <==> cfg.name_ok(e) && cfg.max_depth_ok(e)
            && cfg.min_depth_ok(e) && cfg.size_ok(e)),
        !cfg.name_active() ==> (cfg.accepts(e) <==> cfg.type_ok(e) && cfg.max_depth_ok(e)
            && cfg.min_depth_ok(e) && cfg.size_ok(e)),
        !cfg.max_depth_active() ==> (cfg.accepts(e) <==> cfg.type_ok(e) && cfg.name_ok(e)
            && cfg.min_depth_ok(e) && cfg.size_ok(e)),
        !cfg.min_depth_active() ==> (cfg.accepts(e) <==> cfg.type_ok(e) && cfg.name_ok(e)
            && cfg.max_depth_ok(e) && cfg.size_ok(e)),
        !cfg.size_active() ==> (cfg.accepts(e) <==> cfg.type_ok(e) && cfg.name_ok(e)
            && cfg.max_depth_ok(e) && cfg.min_depth_ok(e)),
{
}

/// Activating filters can only shrink what is accepted: an entry that a
/// configuration accepts is accepted by every configuration it extends.
pub proof fn lemma_activation_shrinks(loose: SearchConfig, tight: SearchConfig, e: EntryView)
    requires
        tight.extends(loose),
    ensures
        tight.accepts(e) ==> loose.accepts(e),
{
}

/// An accepted entry lies within the configured depth bounds.
pub proof fn lemma_accepted_within_depth_bounds(cfg: SearchConfig, e: EntryView)
    requires
        cfg.accepts(e),
    ensures
        cfg.depth_within_bounds(e.depth),
{
}

/// The size filter passes every entry that is not a file, whatever the
/// threshold.
pub proof fn lemma_size_filter_judges_files_only(cfg: SearchConfig, e: EntryView)
    requires
        e.kind != Some(EntryType::File),
    ensures
        cfg.size_ok(e),
{
}

/// The size filter on a file, in bytes: a threshold `n >= 0` admits the file
/// exactly when it fills more than `n` kibibytes, that is at least `n + 1`;
/// a threshold `n < 0` admits it exactly when it is smaller than `-n`
/// kibibytes.
pub proof fn lemma_size_filter_on_files(cfg: SearchConfig, e: EntryView)
    requires
        e.kind == Some(EntryType::File),
        cfg.size is Some,
    ensures
        cfg.size->0 >= 0 ==> (cfg.size_ok(e) <==> e.size >= (cfg.size->0 + 1) * KIB),
        cfg.size->0 < 0 ==> (cfg.size_ok(e) <==> e.size < -(cfg.size->0) * KIB),
{
    let n = cfg.size->0;
    let q = size_in_kib(e.size);
    if n >= 0 {
        assert(q > n <==> e.size >= (n + 1) * 1024) by (nonlinear_arith)
            requires
                q * 1024 <= e.size < (q + 1) * 1024,
        ;
    } else {
        assert(q < -n <==> e.size < (-n) * 1024) by (nonlinear_arith)
            requires
                q * 1024 <= e.size < (q + 1) * 1024,
        ;
    }
}

} // verus!
