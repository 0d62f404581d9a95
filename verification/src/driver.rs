//! The search driver: what becomes of each item of a walk, and of a whole
//! walk. Entries that pass the filters are printed in the order they were
//! found; every failure gets one diagnostic line; nothing stops the run.

use crate::config::SearchConfig;
use crate::entry::{diagnostic_text, Entry, TraversalError};
use crate::input::Input;
use crate::text::texts;
use vstd::prelude::*;

verus! {

/// What is done with one item of a walk.
#[derive(Debug)]
pub enum Action {
    /// Write the line to the output.
    Print(String),
    /// Write the line to the diagnostics.
    Warn(String),
    /// Write nothing.
    Skip,
}

/// The output line that an item earns: the path of an accepted entry.
pub open spec fn output_line(cfg: SearchConfig, item: Result<Entry, TraversalError>) -> Option<
    Seq<char>,
> {
    match item {
        Ok(entry) => if cfg.accepts(entry@) {
            Some(entry.path@)
        } else {
            None
        },
        Err(_) => None,
    }
}

/// The diagnostic line that an item earns: one for every failure.
pub open spec fn diagnostic_of(item: Result<Entry, TraversalError>) -> Option<Seq<char>> {
    match item {
        Ok(_) => None,
        Err(error) => Some(diagnostic_text(error.path@, error.cause@)),
    }
}

/// The output of a walk: the lines its items earn, in the order of the walk.
pub open spec fn reported(cfg: SearchConfig, items: Seq<Result<Entry, TraversalError>>) -> Seq<
    Seq<char>,
> {
    items.filter_map(|item: Result<Entry, TraversalError>| output_line(cfg, item))
}

/// The diagnostics of a walk, in the order of the walk.
pub open spec fn diagnostics(items: Seq<Result<Entry, TraversalError>>) -> Seq<Seq<char>> {
    items.filter_map(|item: Result<Entry, TraversalError>| diagnostic_of(item))
}

impl Input {
    /// Decides what to do with one item of a walk.
    pub fn handle(&self, item: &Result<Entry, TraversalError>) -> (action: Action)
        ensures
            match action {
                Action::Print(line) => output_line(self@, *item) == Some(line@),
                Action::Warn(line) => diagnostic_of(*item) == Some(line@),
                Action::Skip => output_line(self@, *item) is None && diagnostic_of(*item) is None,
            },
    {
        match item {
            Ok(entry) => {
                if self.accepts(entry) {
                    Action::Print(entry.path.clone())
                } else {
                    Action::Skip
                }
            },
            Err(error) => Action::Warn(error.diagnostic_line()),
        }
    }
}

/// Runs the filters over the items of one walk. The paths of the accepted
/// entries are appended to `out` and one line for each failure to `diag`,
/// both in the order of the walk; what the sinks held before stays.
pub fn execute(
    items: &Vec<Result<Entry, TraversalError>>,
    input: &Input,
    out: &mut Vec<String>,
    diag: &mut Vec<String>,
)
    ensures
        texts(final(out)@) == texts(old(out)@) + reported(input@, items@),
        texts(final(diag)@) == texts(old(diag)@) + diagnostics(items@),
{
    let ghost out_before = texts(out@);
    let ghost diag_before = texts(diag@);
    let ghost line = |item: Result<Entry, TraversalError>| output_line(input@, item);
    let ghost warning = |item: Result<Entry, TraversalError>| diagnostic_of(item);
    let mut i: usize = 0;
    while i < items.len()
        invariant
            i <= items.len(),
            line == (|item: Result<Entry, TraversalError>| output_line(input@, item)),
            warning == (|item: Result<Entry, TraversalError>| diagnostic_of(item)),
            texts(out@) == out_before + items@.take(i as int).filter_map(line),
            texts(diag@) == diag_before + items@.take(i as int).filter_map(warning),
        decreases items.len() - i,
    {
        proof {
            items@.lemma_filter_map_take_succ(line, i as int);
            items@.lemma_filter_map_take_succ(warning, i as int);
        }
        let ghost out_now = texts(out@);
        let ghost diag_now = texts(diag@);
        match input.handle(&items[i]) {
            Action::Print(text) => {
                out.push(text);
                assert(texts(out@) =~= out_now.push(text@));
            },
            Action::Warn(text) => {
                diag.push(text);
                assert(texts(diag@) =~= diag_now.push(text@));
            },
            Action::Skip => {},
        }
        i += 1;
    }
    assert(items@.take(i as int) == items@);
}

/// Every line of the output is the path of an entry of the walk that the
/// filters accept, and so of one within the configured depth bounds.
pub proof fn lemma_reported_entries_are_accepted(
    cfg: SearchConfig,
    items: Seq<Result<Entry, TraversalError>>,
    k: int,
)
    requires
        0 <= k < reported(cfg, items).len(),
    ensures
        exists|j: int|
            0 <= j < items.len() && (#[trigger] items[j] matches Ok(entry) && cfg.accepts(entry@)
                && cfg.depth_within_bounds(entry@.depth) && entry.path@ == reported(
                cfg,
                items,
            )[k]),
    decreases items.len(),
{
    let rest = items.drop_last();
    let last = items.len() - 1;
    if k < reported(cfg, rest).len() {
        lemma_reported_entries_are_accepted(cfg, rest, k);
        let j = choose|j: int|
            0 <= j < rest.len() && (#[trigger] rest[j] matches Ok(entry) && cfg.accepts(entry@)
                && cfg.depth_within_bounds(entry@.depth) && entry.path@ == reported(cfg, rest)[k]);
        assert(items[j] == rest[j]);
    } else {
        assert(items[last] is Ok);
    }
}

/// Walks that follow each other report what they report one by one, in
/// that order: searching root after root is searching their walks in a row.
pub proof fn lemma_walks_in_a_row(
    cfg: SearchConfig,
    first: Seq<Result<Entry, TraversalError>>,
    second: Seq<Result<Entry, TraversalError>>,
)
    ensures
        reported(cfg, first + second) == reported(cfg, first) + reported(cfg, second),
        diagnostics(first + second) == diagnostics(first) + diagnostics(second),
    decreases second.len(),
{
    if second.len() == 0 {
        assert(first + second == first);
    } else {
        lemma_walks_in_a_row(cfg, first, second.drop_last());
        assert((first + second).drop_last() == first + second.drop_last());
    }
}

/// Failures do not disturb the output: a walk reports what it would report
/// with its failures left out, and every failure gets exactly one
/// diagnostic line.
pub proof fn lemma_failures_leave_output_alone(
    cfg: SearchConfig,
    items: Seq<Result<Entry, TraversalError>>,
)
    ensures
        reported(cfg, items) == reported(
            cfg,
            items.filter(|item: Result<Entry, TraversalError>| item is Ok),
        ),
        diagnostics(items).len() == items.filter(
            |item: Result<Entry, TraversalError>| item is Err,
        ).len(),
    decreases items.len(),
{
    let found = |item: Result<Entry, TraversalError>| item is Ok;
    reveal(Seq::filter);
    if items.len() > 0 {
        let rest = items.drop_last();
        lemma_failures_leave_output_alone(cfg, rest);
        if items.last() is Ok {
            assert(items.filter(found) == rest.filter(found).push(items.last()));
            assert(rest.filter(found).push(items.last()).drop_last() == rest.filter(found));
        }
    }
}

} // verus!
