//! The per-entry decisions of a run: which entries match, what each one is
//! renamed to, and the match count.

use vstd::prelude::*;
use crate::pattern::{compiles, finds, replaced, Pattern};
use crate::syntax::{ambiguous_at, check_for_common_syntax_error, is_ambiguous, AmbiguousReference};
use crate::walk::{plan_for, walk_plan, WalkPlan};
use crate::Args;

verus! {

/// Why a run could not start. Nothing has been read or renamed.
#[derive(Debug)]
pub enum ConfigError {
    /// The regex engine rejected the pattern.
    Pattern(regex::Error),
    /// The replacement template holds an ambiguous capture reference.
    Template(AmbiguousReference),
}

/// One position of the walk, as the walk produced it.
#[derive(Clone, Debug, PartialEq, Eq)]
pub enum Visit {
    /// The walk failed here (a permission error, a symlink loop, ...).
    WalkError,
    /// The entry's path has no final component.
    NoLeaf,
    /// The entry's final component is not valid text.
    NotText,
    /// An entry at `depth` below the root whose final component is `leaf`.
    Named { depth: usize, leaf: String },
}

/// Why an entry was passed over.
#[derive(Clone, Copy, Debug, PartialEq, Eq)]
pub enum Skip {
    WalkError,
    NoLeaf,
    NotText,
    /// The entry lies outside the walk's depth bounds.
    OutOfDepth,
    /// The pattern does not match the entry's name.
    NoMatch,
}

/// What to do with one entry.
#[derive(Clone, Debug, PartialEq, Eq)]
pub enum Action {
    /// Pass over it.
    Skip(Skip),
    /// Report it as a match; no replacement was given.
    Found,
    /// Report the new name it would get, and leave it.
    Preview(String),
    /// Rename it, within its directory, to the new name.
    Rename(String),
}

/// An `Action` with its new name as text.
pub enum Outcome {
    Skipped(Skip),
    Found,
    Previewed(Seq<char>),
    Renamed(Seq<char>),
}

impl View for Action {
    type V = Outcome;

    open spec fn view(&self) -> Outcome {
        match self {
            Action::Skip(s) => Outcome::Skipped(*s),
            Action::Found => Outcome::Found,
            Action::Preview(n) => Outcome::Previewed(n@),
            Action::Rename(n) => Outcome::Renamed(n@),
        }
    }
}

/// The state of a run: its fixed configuration and the match count.
pub struct RunView {
    pub pattern: Seq<char>,
    pub replacement: Option<Seq<char>>,
    pub preview: bool,
    pub plan: WalkPlan,
    pub matches: nat,
}

/// A run in progress.
pub struct Run {
    pattern: Pattern,
    replacement: Option<String>,
    preview: bool,
    plan: WalkPlan,
    matches: u64,
}

/// The text of an optional string.
pub open spec fn text_of(s: Option<String>) -> Option<Seq<char>> {
    match s {
        Some(t) => Some(t@),
        None => None,
    }
}

impl View for Run {
    type V = RunView;

    closed spec fn view(&self) -> RunView {
        RunView {
            pattern: self.pattern@,
            replacement: text_of(self.replacement),
            preview: self.preview,
            plan: self.plan,
            matches: self.matches as nat,
        }
    }
}

/// Whether an outcome counts as a match.
pub open spec fn counts(o: Outcome) -> bool {
    !(o is Skipped)
}

/// What a run does with one entry, guard by guard.
pub open spec fn decide(run: RunView, v: Visit) -> Outcome {
    match v {
        Visit::WalkError => Outcome::Skipped(Skip::WalkError),
        Visit::NoLeaf => Outcome::Skipped(Skip::NoLeaf),
        Visit::NotText => Outcome::Skipped(Skip::NotText),
        Visit::Named { depth, leaf } => {
            if !run.plan.admits(depth as int) {
                Outcome::Skipped(Skip::OutOfDepth)
            } else if !finds(run.pattern, leaf@) {
                Outcome::Skipped(Skip::NoMatch)
            } else {
                match run.replacement {
                    None => Outcome::Found,
                    Some(t) => if run.preview {
                        Outcome::Previewed(replaced(run.pattern, leaf@, t))
                    } else {
                        Outcome::Renamed(replaced(run.pattern, leaf@, t))
                    },
                }
            }
        },
    }
}

/// The run after one entry: the count goes up by one on a match.
pub open spec fn after(run: RunView, v: Visit) -> RunView {
    RunView {
        matches: if counts(decide(run, v)) {
            run.matches + 1
        } else {
            run.matches
        },
        ..run
    }
}

/// The run that `args` asks for, before any entry.
pub open spec fn initial(args: Args) -> RunView {
    RunView {
        pattern: args.regex@,
        replacement: text_of(args.replacement),
        preview: args.preview,
        plan: plan_for(args.recurse),
        matches: 0,
    }
}

/// Sets up a run: compiles the pattern, then checks the replacement
/// template, if there is one. Either failure ends the run before it starts.
pub fn configure(args: &Args) -> (r: Result<Run, ConfigError>)
    ensures
        r is Ok <==> compiles(args.regex@) && (args.replacement matches Some(t)
            ==> !is_ambiguous(t@)),
        r matches Err(ConfigError::Pattern(_)) <==> !compiles(args.regex@),
        r matches Err(ConfigError::Template(e)) ==> (args.replacement matches Some(t)
            && ambiguous_at(t@, e.at as int, e.upto as int)),
        r matches Ok(run) ==> run@ == initial(*args),
{
    let pattern = match Pattern::new(args.regex.as_str()) {
        Ok(p) => p,
        Err(e) => {
            return Err(ConfigError::Pattern(e));
        },
    };
    if let Some(t) = &args.replacement {
        if let Err(e) = check_for_common_syntax_error(t.as_str()) {
            return Err(ConfigError::Template(e));
        }
    }
    let run = Run {
        pattern,
        replacement: args.replacement.clone(),
        preview: args.preview,
        plan: walk_plan(args.recurse),
        matches: 0,
    };
    Ok(run)
}

impl Run {
    /// The number of entries that matched so far.
    pub fn matches(&self) -> (r: u64)
        ensures
            r == self@.matches,
    {
        self.matches
    }

    /// The walk this run needs.
    pub fn plan(&self) -> (r: WalkPlan)
        ensures
            r == self@.plan,
    {
        self.plan
    }

    /// Decides what to do with one entry of the walk, and counts it if it
    /// matches.
    pub fn visit(&mut self, entry: &Visit) -> (a: Action)
        requires
            old(self)@.matches < u64::MAX,
        ensures
            a@ == decide(old(self)@, *entry),
            final(self)@ == after(old(self)@, *entry),
    {
        let (depth, leaf) = match entry {
            Visit::WalkError => {
                return Action::Skip(Skip::WalkError);
            },
            Visit::NoLeaf => {
                return Action::Skip(Skip::NoLeaf);
            },
            Visit::NotText => {
                return Action::Skip(Skip::NotText);
            },
            Visit::Named { depth, leaf } => (*depth, leaf),
        };
        if !self.plan.includes(depth) {
            return Action::Skip(Skip::OutOfDepth);
        }
        if !self.pattern.find(leaf.as_str()) {
            return Action::Skip(Skip::NoMatch);
        }
        self.matches = self.matches + 1;
        match &self.replacement {
            None => Action::Found,
            Some(t) => {
                let new_name = self.pattern.substitute(leaf.as_str(), t.as_str());
                if self.preview {
                    Action::Preview(new_name)
                } else {
                    Action::Rename(new_name)
                }
            },
        }
    }
}

/// A run that does not recurse passes over every entry two or more levels
/// below the root: it neither reports nor renames it, and does not count it.
pub proof fn lemma_shallow_run_skips_deeper_entries(run: RunView, v: Visit)
    requires
        run.plan == plan_for(false),
        v matches Visit::Named { depth, .. } && depth >= 2,
    ensures
        decide(run, v) == Outcome::Skipped(Skip::OutOfDepth),
        after(run, v) == run,
{
}

/// Without a replacement a run never renames nor previews; each matching
/// entry is reported and counted.
pub proof fn lemma_search_only_never_renames(run: RunView, v: Visit)
    requires
        run.replacement is None,
    ensures
        !(decide(run, v) is Renamed),
        !(decide(run, v) is Previewed),
        (v matches Visit::Named { depth, leaf } && run.plan.admits(depth as int) && finds(
            run.pattern,
            leaf@,
        )) ==> decide(run, v) == Outcome::Found && after(run, v).matches == run.matches + 1,
{
}

/// Two runs that differ only in preview mode give each entry the same new
/// name: the one previews it where the other renames it, and both count
/// the same. A preview run renames nothing.
pub proof fn lemma_preview_matches_rename(preview: RunView, renaming: RunView, v: Visit)
    requires
        preview.pattern == renaming.pattern,
        preview.replacement == renaming.replacement,
        preview.plan == renaming.plan,
        preview.matches == renaming.matches,
        preview.preview,
        !renaming.preview,
    ensures
        !(decide(preview, v) is Renamed),
        forall|n: Seq<char>|
            decide(preview, v) == Outcome::Previewed(n) <==> decide(renaming, v) == Outcome::Renamed(
                n,
            ),
        decide(preview, v) is Skipped ==> decide(renaming, v) == decide(preview, v),
        decide(preview, v) is Found ==> decide(renaming, v) is Found,
        after(preview, v).matches == after(renaming, v).matches,
{
}

} // verus!
