//! What the directory walk must produce: which depths, and in which order.
//!
//! The walk itself reads the file system and is run by the caller; these
//! items fix how it is configured and show why its order matters.

use vstd::prelude::*;

verus! {

/// Depth bounds and order of a walk below the current directory. The root
/// itself is depth 0, its children depth 1.
#[derive(Clone, Copy, Debug, PartialEq, Eq)]
pub struct WalkPlan {
    pub min_depth: usize,
    /// `None`: no bound.
    pub max_depth: Option<usize>,
    /// Each directory's contents are yielded before the directory itself.
    pub contents_first: bool,
}

impl WalkPlan {
    /// Whether an entry at `depth` lies within the plan's bounds.
    pub open spec fn admits(self, depth: int) -> bool {
        &&& self.min_depth <= depth
        &&& self.max_depth matches Some(m) ==> depth <= m
    }

    /// Whether an entry at `depth` lies within the plan's bounds.
    pub fn includes(&self, depth: usize) -> (r: bool)
        ensures
            r == self.admits(depth as int),
    {
        if depth < self.min_depth {
            false
        } else {
            match self.max_depth {
                Some(m) => depth <= m,
                None => true,
            }
        }
    }
}

/// The walk for a run: never the root itself, only its immediate children
/// unless `does_recurse`, and always contents first.
pub open spec fn plan_for(does_recurse: bool) -> WalkPlan {
    WalkPlan {
        min_depth: 1,
        max_depth: if does_recurse { None } else { Some(1) },
        contents_first: true,
    }
}

/// The walk for a run: never the root itself, only its immediate children
/// unless `does_recurse`, and always contents first.
pub fn walk_plan(does_recurse: bool) -> (r: WalkPlan)
    ensures
        r == plan_for(does_recurse),
{
    if does_recurse {
        WalkPlan { min_depth: 1, max_depth: None, contents_first: true }
    } else {
        WalkPlan { min_depth: 1, max_depth: Some(1), contents_first: true }
    }
}

/// Whether a leaf name marks a hidden entry (it starts with `.`).
pub fn is_hidden(name: &str) -> (r: bool)
    ensures
        r == (name@.len() > 0 && name@[0] == '.'),
{
    name.unicode_len() > 0 && name.get_char(0) == '.'
}

/// A path below the root, as its components.
pub type Components = Seq<Seq<char>>;

/// `a` is a proper ancestor of `d`.
pub open spec fn is_ancestor(a: Components, d: Components) -> bool {
    a.len() < d.len() && d.subrange(0, a.len() as int) == a
}

/// A walk order in which no directory comes before anything below it.
pub open spec fn is_contents_first(order: Seq<Components>) -> bool {
    forall|i: int, j: int| 0 <= i < j < order.len() ==> !is_ancestor(order[i], order[j])
}

/// Where `q` is after the entry at `p` has been renamed to `leaf`: `p` and
/// everything below it move, other paths stay.
pub open spec fn moved(q: Components, p: Components, leaf: Seq<char>) -> Components {
    if p.len() > 0 && p.len() <= q.len() && q.subrange(0, p.len() as int) == p {
        p.drop_last().push(leaf) + q.subrange(p.len() as int, q.len() as int)
    } else {
        q
    }
}

/// In a contents-first walk of distinct paths, renaming an entry leaves the
/// path of every entry that comes after it as it was recorded, so no
/// pending path goes stale.
pub proof fn lemma_contents_first_keeps_pending_paths(
    order: Seq<Components>,
    i: int,
    j: int,
    leaf: Seq<char>,
)
    requires
        is_contents_first(order),
        0 <= i < j < order.len(),
        order[i] != order[j],
    ensures
        moved(order[j], order[i], leaf) == order[j],
{
    let p = order[i];
    let q = order[j];
    if p.len() > 0 && p.len() <= q.len() && q.subrange(0, p.len() as int) == p {
        if p.len() == q.len() {
            assert(q =~= q.subrange(0, p.len() as int));
        } else {
            assert(is_ancestor(p, q));
        }
    }
}

/// An entry renamed earlier in the walk stays reachable when a directory
/// above it is renamed later: it moves along under the directory's new name,
/// keeping its own new leaf.
pub proof fn lemma_renamed_descendant_moves_with_ancestor(
    d: Components,
    a: Components,
    d_leaf: Seq<char>,
    a_leaf: Seq<char>,
)
    requires
        is_ancestor(a, d),
        a.len() > 0,
    ensures
        moved(moved(d, d, d_leaf), a, a_leaf) == a.drop_last().push(a_leaf) + d.subrange(
            a.len() as int,
            d.len() as int,
        ).drop_last().push(d_leaf),
{
    let d1 = moved(d, d, d_leaf);
    assert(d.subrange(0, d.len() as int) =~= d);
    assert(d1 =~= d.drop_last().push(d_leaf));
    assert(d1.subrange(0, a.len() as int) =~= d.subrange(0, a.len() as int));
    assert(d1.subrange(a.len() as int, d1.len() as int) =~= d.subrange(
        a.len() as int,
        d.len() as int,
    ).drop_last().push(d_leaf));
}

} // verus!
