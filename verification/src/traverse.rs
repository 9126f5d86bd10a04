//! Walking the tree.
//!
//! A walk starts at the root and visits every node it can reach exactly
//! once, parents before their children. It keeps an explicit work list, so
//! its depth is not bounded by the call stack, and it can be put down and
//! taken up again: where it needs a page that is not in memory it returns
//! the page's index and waits to be called again.

use vstd::prelude::*;
use std::collections::HashSet;
use std::sync::Arc;
use vstd::std_specs::hash::spec_hash_set_len;
use crate::accessor::{Accessor, Lookup};
use crate::node::{resolution, resolve_alike, root_index_of, Node, NodeArray};
use crate::resource::ResourceManager;

verus! {

/// One visit of a walk: the index that was asked for, the level at which
/// the node stands, the node that was handed to the visitor, and what the
/// visitor answered: `true` to go on, `false` to stop. `parent` is the
/// position, in the order of visits, of the visit whose node lists this
/// index as a child, and `slot` the place of the index in that list; both
/// are -1 for the root.
pub struct Visit {
    pub index: usize,
    pub level: usize,
    pub node: Arc<Node>,
    pub answer: bool,
    pub parent: int,
    pub slot: int,
}

/// The state of a walk.
pub struct Traversal {
    /// The work list; the last entry is taken next. Each entry is an index
    /// and the level of its node.
    pending: Vec<(usize, usize)>,
    /// The indices visited so far.
    visited: HashSet<usize>,
    /// The pages that the caller reported as not to be had.
    unavailable: HashSet<usize>,
    /// Whether the visitor has ended the walk.
    stopped: bool,
    root: Ghost<usize>,
    trail: Ghost<Seq<Visit>>,
    /// For each entry of the work list, the position of the visit that
    /// listed it, or -1 for the root.
    origin: Ghost<Seq<int>>,
    /// For each entry of the work list, its place in the child list that
    /// holds it, or -1 for the root.
    slots: Ghost<Seq<int>>,
    /// The position in the trail of each visited index.
    position: Ghost<Map<usize, int>>,
    pruned: Ghost<Set<usize>>,
}

/// Whether an index stands at a level by right: the root at level 0, any
/// other index one level below a visited node that lists it at `slot`.
pub open spec fn justified(
    trail: Seq<Visit>,
    root: usize,
    index: usize,
    level: usize,
    parent: int,
    slot: int,
) -> bool {
    if parent < 0 {
        index == root && level == 0 && parent == -1 && slot == -1
    } else {
        &&& parent < trail.len()
        &&& 0 <= slot < trail[parent].node.children@.len()
        &&& trail[parent].node.children@[slot] == index
        &&& level == trail[parent].level + 1
    }
}

/// Whether the work list holds an entry for `index`.
pub open spec fn awaited(pending: Seq<(usize, usize)>, index: usize) -> bool {
    exists|m: int| 0 <= m < pending.len() && (#[trigger] pending[m]).0 == index
}

impl Traversal {
    /// The index at which the walk starts.
    pub closed spec fn root(&self) -> usize {
        self.root@
    }

    /// The visits made so far, in order.
    pub closed spec fn trail(&self) -> Seq<Visit> {
        self.trail@
    }

    /// The work list.
    pub closed spec fn pending(&self) -> Seq<(usize, usize)> {
        self.pending@
    }

    /// The indices that the walk took up and found no node for.
    pub closed spec fn pruned(&self) -> Set<usize> {
        self.pruned@
    }

    /// The pages that the caller reported as not to be had.
    pub closed spec fn unavailable(&self) -> Set<usize> {
        self.unavailable@
    }

    /// Whether the visitor has ended the walk.
    pub closed spec fn stopped(&self) -> bool {
        self.stopped
    }

    /// Whether the walk has come to its end without being stopped.
    pub open spec fn finished(&self) -> bool {
        !self.stopped() && self.pending().len() == 0
    }

    /// Whether `index` has been visited.
    pub closed spec fn visited(&self, index: usize) -> bool {
        self.position@.contains_key(index)
    }

    /// The position in the trail of the visit of `index`.
    pub closed spec fn position_of(&self, index: usize) -> int {
        self.position@[index]
    }

    /// Whether `index` is accounted for: visited, pruned, or on the work
    /// list.
    pub closed spec fn settled(&self, index: usize) -> bool {
        self.position@.contains_key(index) || self.pruned@.contains(index) || awaited(
            self.pending@,
            index,
        )
    }

    /// The trail and the set of visited indices describe each other.
    #[verifier::opaque]
    spec fn indexed(&self) -> bool {
        &&& self.visited@.finite()
        &&& self.visited@.len() == self.trail@.len()
        &&& forall|i: usize| self.visited@.contains(i) <==> self.position@.contains_key(i)
        &&& forall|i: usize| #[trigger]
            self.position@.contains_key(i) ==> 0 <= self.position@[i] < self.trail@.len()
                && self.trail@[self.position@[i]].index == i
        &&& forall|k: int|
            0 <= k < self.trail@.len() ==> self.position@.contains_key(
                (#[trigger] self.trail@[k]).index,
            ) && self.position@[self.trail@[k].index] == k
    }

    /// Every visit stands at its level by right.
    #[verifier::opaque]
    spec fn traced(&self) -> bool {
        forall|k: int|
            0 <= k < self.trail@.len() ==> justified(
                self.trail@,
                self.root@,
                (#[trigger] self.trail@[k]).index,
                self.trail@[k].level,
                self.trail@[k].parent,
                self.trail@[k].slot,
            ) && self.trail@[k].parent < k
    }

    /// Every entry of the work list stands at its level by right.
    #[verifier::opaque]
    spec fn queued(&self) -> bool {
        &&& self.origin@.len() == self.pending@.len()
        &&& self.slots@.len() == self.pending@.len()
        &&& forall|m: int|
            0 <= m < self.pending@.len() ==> justified(
                self.trail@,
                self.root@,
                (#[trigger] self.pending@[m]).0,
                self.pending@[m].1,
                self.origin@[m],
                self.slots@[m],
            ) && self.pending@[m].1 <= self.trail@.len()
        &&& self.stopped ==> self.pending@.len() == 0
    }

    /// The work list is a stack of child lists: the entries of a node lie
    /// above those of the nodes visited before it, in the order listed, and
    /// whatever has been visited since a node put an entry there lies below
    /// that node.
    #[verifier::opaque]
    spec fn stacked(&self) -> bool {
        &&& forall|m1: int, m2: int|
            0 <= m1 < m2 < self.origin@.len() ==> #[trigger] self.origin@[m1]
                <= #[trigger] self.origin@[m2] && (self.origin@[m1] == self.origin@[m2]
                ==> self.slots@[m1] < self.slots@[m2])
        &&& forall|m: int, j: int|
            0 <= m < self.origin@.len() && 0 <= j < self.trail@.len() && #[trigger] self.origin@[m]
                < j ==> (#[trigger] self.trail@[j]).parent >= self.origin@[m]
        &&& forall|m: int, j: int|
            0 <= m < self.origin@.len() && 0 <= j < self.trail@.len() && #[trigger] self.origin@[m]
                == (#[trigger] self.trail@[j]).parent ==> self.trail@[j].slot > self.slots@[m]
    }

    /// The visits are in depth-first order, and of the children of a node
    /// the one listed later is visited earlier.
    #[verifier::opaque]
    spec fn depth_first(&self) -> bool {
        &&& forall|k: int, j: int|
            0 <= k < self.trail@.len() && (#[trigger] self.trail@[k]).parent < j < k ==> (
            #[trigger] self.trail@[j]).parent >= self.trail@[k].parent
        &&& forall|k1: int, k2: int|
            0 <= k1 < self.trail@.len() && 0 <= k2 < self.trail@.len() && (
            #[trigger] self.trail@[k1]).parent == (#[trigger] self.trail@[k2]).parent
                && self.trail@[k1].slot > self.trail@[k2].slot ==> k1 < k2
    }

    /// Only the last visit can have been answered with `false`, and it has
    /// been exactly when the walk is stopped.
    #[verifier::opaque]
    spec fn answered(&self) -> bool {
        &&& forall|k: int|
            0 <= k < self.trail@.len() ==> (#[trigger] self.trail@[k]).answer || (k
                == self.trail@.len() - 1 && self.stopped)
        &&& self.stopped ==> self.trail@.len() > 0 && !self.trail@.last().answer
    }

    spec fn records(&self) -> bool {
        &&& self.indexed()
        &&& self.traced()
        &&& self.queued()
        &&& self.answered()
        &&& self.stacked()
        &&& self.depth_first()
    }

    /// Whether every child of a visited node is accounted for; of the node
    /// visited last, the first `limit` children only.
    #[verifier::opaque]
    spec fn covered(&self, limit: int) -> bool {
        &&& self.settled(self.root@)
        &&& forall|k: int, c: int|
            0 <= k < self.trail@.len() && 0 <= c < self.trail@[k].node.children@.len() && (k + 1
                < self.trail@.len() || c < limit) ==> self.settled(
                #[trigger] self.trail@[k].node.children@[c],
            )
    }

    #[verifier::opaque]
    spec fn all_covered(&self) -> bool {
        &&& self.settled(self.root@)
        &&& forall|k: int, c: int|
            0 <= k < self.trail@.len() && 0 <= c < self.trail@[k].node.children@.len()
                ==> self.settled(#[trigger] self.trail@[k].node.children@[c])
    }

    /// The invariant of a walk, which `new` sets up and every operation
    /// keeps.
    pub closed spec fn well_formed(&self) -> bool {
        &&& self.records()
        &&& !self.stopped ==> self.all_covered()
    }

    /// A walk that starts at `root_index` and has visited nothing yet.
    pub fn new(root_index: usize) -> (walk: Self)
        ensures
            walk.well_formed(),
            walk.root() == root_index,
            walk.trail() == Seq::<Visit>::empty(),
            walk.pending() == seq![(root_index, 0usize)],
            walk.pruned() == Set::<usize>::empty(),
            walk.unavailable() == Set::<usize>::empty(),
            !walk.stopped(),
    {
        let mut pending: Vec<(usize, usize)> = Vec::new();
        pending.push((root_index, 0));
        let walk = Traversal {
            pending,
            visited: HashSet::new(),
            unavailable: HashSet::new(),
            stopped: false,
            root: Ghost(root_index),
            trail: Ghost(Seq::empty()),
            origin: Ghost(Seq::<int>::empty().push(-1)),
            slots: Ghost(Seq::<int>::empty().push(-1)),
            position: Ghost(Map::empty()),
            pruned: Ghost(Set::empty()),
        };
        proof {
            reveal(Traversal::indexed);
            reveal(Traversal::traced);
            reveal(Traversal::queued);
            reveal(Traversal::answered);
            reveal(Traversal::stacked);
            reveal(Traversal::depth_first);
            reveal(Traversal::all_covered);
            assert(walk.pending@ =~= seq![(root_index, 0usize)]);
            assert(walk.pending@[0].0 == root_index);
            assert(awaited(walk.pending@, root_index));
        }
        walk
    }

    /// Records that the page `page` is not to be had, so that the walk takes
    /// the nodes in it for absent and goes on without them.
    pub fn mark_unavailable(&mut self, page: usize)
        requires
            old(self).well_formed(),
        ensures
            final(self).well_formed(),
            final(self).unavailable() == old(self).unavailable().insert(page),
            final(self).root() == old(self).root(),
            final(self).trail() == old(self).trail(),
            final(self).pending() == old(self).pending(),
            final(self).pruned() == old(self).pruned(),
            final(self).stopped() == old(self).stopped(),
    {
        broadcast use vstd::std_specs::hash::group_hash_axioms;

        self.unavailable.insert(page);
        proof {
            reveal(Traversal::indexed);
            reveal(Traversal::traced);
            reveal(Traversal::queued);
            reveal(Traversal::answered);
            reveal(Traversal::stacked);
            reveal(Traversal::depth_first);
            reveal(Traversal::all_covered);
            if !self.stopped {
                assert(old(self).all_covered());
                assert(self.settled(self.root@) == old(self).settled(self.root@));
                assert forall|k: int, c: int|
                    0 <= k < self.trail@.len() && 0 <= c
                        < self.trail@[k].node.children@.len() implies self.settled(
                    #[trigger] self.trail@[k].node.children@[c],
                ) by {
                    assert(old(self).settled(old(self).trail@[k].node.children@[c]));
                }
            }
        }
    }

    /// Whether the walk has been ended by the visitor.
    pub fn is_stopped(&self) -> (r: bool)
        ensures
            r == self.stopped(),
    {
        self.stopped
    }

    /// Whether the walk has come to its end without being stopped.
    pub fn is_finished(&self) -> (r: bool)
        ensures
            r == self.finished(),
    {
        !self.stopped && self.pending.len() == 0
    }
}

/// Whether `longer` begins with the visits of `shorter`.
spec fn extends(shorter: Seq<Visit>, longer: Seq<Visit>) -> bool {
    &&& shorter.len() <= longer.len()
    &&& forall|k: int| 0 <= k < shorter.len() ==> #[trigger] longer[k] == shorter[k]
}

proof fn lemma_justified_extends(
    shorter: Seq<Visit>,
    longer: Seq<Visit>,
    root: usize,
    index: usize,
    level: usize,
    parent: int,
    slot: int,
)
    requires
        extends(shorter, longer),
        justified(shorter, root, index, level, parent, slot),
    ensures
        justified(longer, root, index, level, parent, slot),
{
    if parent >= 0 {
        assert(longer[parent] == shorter[parent]);
    }
}

/// What is accounted for stays so when the last entry leaves the work list,
/// provided its index is visited or pruned by then.
proof fn lemma_settled_after_pop(a: Traversal, b: Traversal, index: usize)
    requires
        a.settled(index),
        a.pending@.len() > 0,
        b.pending@ == a.pending@.drop_last(),
        forall|i: usize| a.position@.contains_key(i) ==> b.position@.contains_key(i),
        forall|i: usize| a.pruned@.contains(i) ==> b.pruned@.contains(i),
        b.position@.contains_key(a.pending@.last().0) || b.pruned@.contains(
            a.pending@.last().0,
        ),
    ensures
        b.settled(index),
{
    if !a.position@.contains_key(index) && !a.pruned@.contains(index) {
        let m = choose|m: int| 0 <= m < a.pending@.len() && (#[trigger] a.pending@[m]).0 == index;
        if m < b.pending@.len() {
            assert(b.pending@[m].0 == index);
        } else {
            assert(index == a.pending@.last().0);
        }
    }
}

/// What is accounted for stays so when an entry joins the work list.
proof fn lemma_settled_after_push(a: Traversal, b: Traversal, entry: (usize, usize), index: usize)
    requires
        a.settled(index),
        b.pending@ == a.pending@.push(entry),
        b.position@ == a.position@,
        b.pruned@ == a.pruned@,
    ensures
        b.settled(index),
{
    if awaited(a.pending@, index) {
        let m = choose|m: int| 0 <= m < a.pending@.len() && (#[trigger] a.pending@[m]).0 == index;
        assert(b.pending@[m].0 == index);
    }
}

proof fn lemma_pop_queued(a: Traversal, b: Traversal)
    requires
        a.queued(),
        a.pending@.len() > 0,
        b.pending@ == a.pending@.drop_last(),
        b.origin@ == a.origin@.drop_last(),
        b.slots@ == a.slots@.drop_last(),
        extends(a.trail@, b.trail@),
        b.root@ == a.root@,
        !b.stopped,
    ensures
        b.queued(),
        forall|m: int| 0 <= m < b.origin@.len() ==> #[trigger] b.origin@[m] < a.trail@.len(),
{
    reveal(Traversal::queued);
    assert forall|m: int| 0 <= m < b.pending@.len() implies justified(
        b.trail@,
        b.root@,
        (#[trigger] b.pending@[m]).0,
        b.pending@[m].1,
        b.origin@[m],
        b.slots@[m],
    ) && b.pending@[m].1 <= b.trail@.len() && b.origin@[m] < a.trail@.len() by {
        let entry = a.pending@[m];
        assert(b.pending@[m] == entry);
        assert(b.origin@[m] == a.origin@[m]);
        assert(b.slots@[m] == a.slots@[m]);
        lemma_justified_extends(
            a.trail@,
            b.trail@,
            a.root@,
            entry.0,
            entry.1,
            a.origin@[m],
            a.slots@[m],
        );
    }
    assert forall|m: int| 0 <= m < b.origin@.len() implies #[trigger] b.origin@[m]
        < a.trail@.len() by {
        assert(b.pending@[m] == a.pending@[m]);
    }
}

proof fn lemma_push_queued(a: Traversal, b: Traversal, child: usize, level: usize, c: int)
    requires
        a.queued(),
        !a.stopped,
        !b.stopped,
        b.trail@ == a.trail@,
        b.root@ == a.root@,
        a.trail@.len() > 0,
        0 <= c < a.trail@.last().node.children@.len(),
        a.trail@.last().node.children@[c] == child,
        a.trail@.last().level == level,
        level + 1 <= a.trail@.len() <= usize::MAX,
        b.pending@ == a.pending@.push((child, (level + 1) as usize)),
        b.origin@ == a.origin@.push(a.trail@.len() - 1),
        b.slots@ == a.slots@.push(c),
    ensures
        b.queued(),
{
    reveal(Traversal::queued);
    assert forall|m: int| 0 <= m < b.pending@.len() implies justified(
        b.trail@,
        b.root@,
        (#[trigger] b.pending@[m]).0,
        b.pending@[m].1,
        b.origin@[m],
        b.slots@[m],
    ) && b.pending@[m].1 <= b.trail@.len() by {
        if m < a.pending@.len() {
            assert(b.pending@[m] == a.pending@[m]);
            assert(b.origin@[m] == a.origin@[m]);
            assert(b.slots@[m] == a.slots@[m]);
        } else {
            let parent = a.trail@.len() - 1;
            assert(b.pending@[m] == (child, (level + 1) as usize));
            assert(b.origin@[m] == parent);
            assert(b.slots@[m] == c);
            assert(a.trail@[parent] == a.trail@.last());
        }
    }
}

proof fn lemma_pop_stacked(a: Traversal, b: Traversal)
    requires
        a.stacked(),
        a.origin@.len() > 0,
        a.slots@.len() == a.origin@.len(),
        b.origin@ == a.origin@.drop_last(),
        b.slots@ == a.slots@.drop_last(),
        b.trail@ == a.trail@,
    ensures
        b.stacked(),
{
    reveal(Traversal::stacked);
    assert forall|m1: int, m2: int| 0 <= m1 < m2 < b.origin@.len() implies #[trigger] b.origin@[m1]
        <= #[trigger] b.origin@[m2] && (b.origin@[m1] == b.origin@[m2] ==> b.slots@[m1]
        < b.slots@[m2]) by {
        assert(a.origin@[m1] <= a.origin@[m2]);
    }
    assert forall|m: int, j: int|
        0 <= m < b.origin@.len() && 0 <= j < b.trail@.len() && #[trigger] b.origin@[m]
            < j implies (#[trigger] b.trail@[j]).parent >= b.origin@[m] by {
        assert(a.origin@[m] < j);
    }
    assert forall|m: int, j: int|
        0 <= m < b.origin@.len() && 0 <= j < b.trail@.len() && #[trigger] b.origin@[m] == (
        #[trigger] b.trail@[j]).parent implies b.trail@[j].slot > b.slots@[m] by {
        assert(a.origin@[m] == a.trail@[j].parent);
    }
}

/// The visit of the last entry of the work list keeps the order: what has
/// been visited since its parent lies below the parent, and the siblings
/// visited before it are listed after it.
proof fn lemma_enter_ordered(a: Traversal, b: Traversal)
    requires
        a.stacked(),
        a.depth_first(),
        a.traced(),
        a.origin@.len() > 0,
        a.slots@.len() == a.origin@.len(),
        b.origin@ == a.origin@.drop_last(),
        b.slots@ == a.slots@.drop_last(),
        b.trail@.len() == a.trail@.len() + 1,
        extends(a.trail@, b.trail@),
        b.trail@.last().parent == a.origin@.last(),
        b.trail@.last().slot == a.slots@.last(),
        -1 <= a.origin@.last() < a.trail@.len(),
    ensures
        b.stacked(),
        b.depth_first(),
{
    reveal(Traversal::stacked);
    reveal(Traversal::depth_first);
    reveal(Traversal::traced);
    let top = a.origin@.len() - 1;
    let at = a.trail@.len() as int;
    let from = a.origin@[top];
    let slot = a.slots@[top];
    assert(b.trail@[at].parent == from && b.trail@[at].slot == slot);
    assert forall|m1: int, m2: int| 0 <= m1 < m2 < b.origin@.len() implies #[trigger] b.origin@[m1]
        <= #[trigger] b.origin@[m2] && (b.origin@[m1] == b.origin@[m2] ==> b.slots@[m1]
        < b.slots@[m2]) by {
        assert(a.origin@[m1] <= a.origin@[m2]);
    }
    assert forall|m: int, j: int|
        0 <= m < b.origin@.len() && 0 <= j < b.trail@.len() && #[trigger] b.origin@[m]
            < j implies (#[trigger] b.trail@[j]).parent >= b.origin@[m] by {
        if j < at {
            assert(b.trail@[j] == a.trail@[j]);
            assert(a.origin@[m] < j);
        } else {
            assert(a.origin@[m] <= a.origin@[top]);
        }
    }
    assert forall|m: int, j: int|
        0 <= m < b.origin@.len() && 0 <= j < b.trail@.len() && #[trigger] b.origin@[m] == (
        #[trigger] b.trail@[j]).parent implies b.trail@[j].slot > b.slots@[m] by {
        if j < at {
            assert(b.trail@[j] == a.trail@[j]);
            assert(a.origin@[m] == a.trail@[j].parent);
        } else {
            assert(a.origin@[m] <= a.origin@[top]);
        }
    }
    assert forall|k: int, j: int|
        0 <= k < b.trail@.len() && (#[trigger] b.trail@[k]).parent < j < k implies (
    #[trigger] b.trail@[j]).parent >= b.trail@[k].parent by {
        if k < at {
            let visit = a.trail@[k];
            assert(b.trail@[k] == visit);
            assert(justified(
                a.trail@,
                a.root@,
                visit.index,
                visit.level,
                visit.parent,
                visit.slot,
            ));
            assert(b.trail@[j] == a.trail@[j]);
        } else {
            assert(b.trail@[j] == a.trail@[j]);
            assert(a.origin@[top] < j);
        }
    }
    assert forall|k1: int, k2: int|
        0 <= k1 < b.trail@.len() && 0 <= k2 < b.trail@.len() && (#[trigger] b.trail@[k1]).parent
            == (#[trigger] b.trail@[k2]).parent && b.trail@[k1].slot
            > b.trail@[k2].slot implies k1 < k2 by {
        if k1 < at && k2 < at {
            assert(b.trail@[k1] == a.trail@[k1]);
            assert(b.trail@[k2] == a.trail@[k2]);
        } else if k1 == at && k2 < at {
            assert(b.trail@[k2] == a.trail@[k2]);
            assert(a.origin@[top] == a.trail@[k2].parent);
        }
    }
}

/// An entry that joins the work list for the child at place `c` of the node
/// visited last keeps the stack in order.
proof fn lemma_push_stacked(a: Traversal, b: Traversal, c: int)
    requires
        a.stacked(),
        a.traced(),
        a.trail@.len() > 0,
        a.slots@.len() == a.origin@.len(),
        b.trail@ == a.trail@,
        b.origin@ == a.origin@.push(a.trail@.len() - 1),
        b.slots@ == a.slots@.push(c),
        forall|m: int|
            0 <= m < a.origin@.len() ==> #[trigger] a.origin@[m] <= a.trail@.len() - 1 && (
            a.origin@[m] == a.trail@.len() - 1 ==> a.slots@[m] < c),
    ensures
        b.stacked(),
{
    reveal(Traversal::stacked);
    reveal(Traversal::traced);
    let last = a.trail@.len() - 1;
    let new = a.origin@.len() as int;
    assert forall|m1: int, m2: int| 0 <= m1 < m2 < b.origin@.len() implies #[trigger] b.origin@[m1]
        <= #[trigger] b.origin@[m2] && (b.origin@[m1] == b.origin@[m2] ==> b.slots@[m1]
        < b.slots@[m2]) by {
        assert(b.origin@[m1] == a.origin@[m1]);
        assert(b.slots@[m1] == a.slots@[m1]);
        if m2 < new {
            assert(b.origin@[m2] == a.origin@[m2]);
            assert(b.slots@[m2] == a.slots@[m2]);
            assert(a.origin@[m1] <= a.origin@[m2]);
        }
    }
    assert forall|m: int, j: int|
        0 <= m < b.origin@.len() && 0 <= j < b.trail@.len() && #[trigger] b.origin@[m]
            < j implies (#[trigger] b.trail@[j]).parent >= b.origin@[m] by {
        if m < new {
            assert(b.origin@[m] == a.origin@[m]);
            assert(a.origin@[m] < j);
        }
    }
    assert forall|m: int, j: int|
        0 <= m < b.origin@.len() && 0 <= j < b.trail@.len() && #[trigger] b.origin@[m] == (
        #[trigger] b.trail@[j]).parent implies b.trail@[j].slot > b.slots@[m] by {
        if m < new {
            assert(b.origin@[m] == a.origin@[m]);
            assert(b.slots@[m] == a.slots@[m]);
            assert(a.origin@[m] == a.trail@[j].parent);
        } else {
            assert(a.trail@[j].parent < j);
        }
    }
}

proof fn lemma_enter_indexed(a: Traversal, b: Traversal, index: usize)
    requires
        a.indexed(),
        !a.visited@.contains(index),
        b.visited@ == a.visited@.insert(index),
        b.position@ == a.position@.insert(index, a.trail@.len() as int),
        b.trail@.len() == a.trail@.len() + 1,
        extends(a.trail@, b.trail@),
        b.trail@.last().index == index,
    ensures
        b.indexed(),
{
    broadcast use vstd::set::group_set_axioms;

    reveal(Traversal::indexed);
    assert(!a.position@.contains_key(index));
    assert forall|i: usize| #[trigger] b.position@.contains_key(i) implies 0 <= b.position@[i]
        < b.trail@.len() && b.trail@[b.position@[i]].index == i by {
        if i != index {
            assert(a.position@.contains_key(i));
            assert(b.trail@[a.position@[i]] == a.trail@[a.position@[i]]);
        }
    }
    assert forall|k: int| 0 <= k < b.trail@.len() implies b.position@.contains_key(
        (#[trigger] b.trail@[k]).index,
    ) && b.position@[b.trail@[k].index] == k by {
        if k < a.trail@.len() {
            assert(b.trail@[k] == a.trail@[k]);
            assert(a.position@.contains_key(a.trail@[k].index));
        }
    }
}

proof fn lemma_enter_traced(a: Traversal, b: Traversal)
    requires
        a.traced(),
        a.queued(),
        a.pending@.len() > 0,
        b.root@ == a.root@,
        b.trail@.len() == a.trail@.len() + 1,
        extends(a.trail@, b.trail@),
        b.trail@.last().index == a.pending@.last().0,
        b.trail@.last().level == a.pending@.last().1,
        b.trail@.last().parent == a.origin@.last(),
        b.trail@.last().slot == a.slots@.last(),
    ensures
        b.traced(),
{
    reveal(Traversal::traced);
    reveal(Traversal::queued);
    assert forall|k: int| 0 <= k < b.trail@.len() implies justified(
        b.trail@,
        b.root@,
        (#[trigger] b.trail@[k]).index,
        b.trail@[k].level,
        b.trail@[k].parent,
        b.trail@[k].slot,
    ) && b.trail@[k].parent < k by {
        if k < a.trail@.len() {
            let visit = a.trail@[k];
            assert(b.trail@[k] == visit);
            lemma_justified_extends(
                a.trail@,
                b.trail@,
                a.root@,
                visit.index,
                visit.level,
                visit.parent,
                visit.slot,
            );
        } else {
            let top = a.pending@[a.pending@.len() - 1];
            lemma_justified_extends(
                a.trail@,
                b.trail@,
                a.root@,
                top.0,
                top.1,
                a.origin@[a.pending@.len() - 1],
                a.slots@[a.pending@.len() - 1],
            );
        }
    }
}

proof fn lemma_pop_covered(a: Traversal, b: Traversal)
    requires
        a.all_covered(),
        a.pending@.len() > 0,
        b.pending@ == a.pending@.drop_last(),
        b.trail@ == a.trail@,
        b.root@ == a.root@,
        forall|i: usize| a.position@.contains_key(i) ==> b.position@.contains_key(i),
        forall|i: usize| a.pruned@.contains(i) ==> b.pruned@.contains(i),
        b.position@.contains_key(a.pending@.last().0) || b.pruned@.contains(
            a.pending@.last().0,
        ),
    ensures
        b.all_covered(),
{
    reveal(Traversal::all_covered);
    lemma_settled_after_pop(a, b, a.root@);
    assert forall|k: int, c: int|
        0 <= k < b.trail@.len() && 0 <= c < b.trail@[k].node.children@.len() implies b.settled(
        #[trigger] b.trail@[k].node.children@[c],
    ) by {
        lemma_settled_after_pop(a, b, a.trail@[k].node.children@[c]);
    }
}

proof fn lemma_enter_covered(a: Traversal, b: Traversal)
    requires
        a.all_covered(),
        a.pending@.len() > 0,
        b.pending@ == a.pending@.drop_last(),
        b.trail@.len() == a.trail@.len() + 1,
        extends(a.trail@, b.trail@),
        b.root@ == a.root@,
        forall|i: usize| a.position@.contains_key(i) ==> b.position@.contains_key(i),
        b.pruned@ == a.pruned@,
        b.position@.contains_key(a.pending@.last().0),
    ensures
        b.covered(0),
{
    reveal(Traversal::all_covered);
    reveal(Traversal::covered);
    lemma_settled_after_pop(a, b, a.root@);
    assert forall|k: int, c: int|
        0 <= k < b.trail@.len() && 0 <= c < b.trail@[k].node.children@.len() && (k + 1
            < b.trail@.len() || c < 0) implies b.settled(
        #[trigger] b.trail@[k].node.children@[c],
    ) by {
        assert(b.trail@[k] == a.trail@[k]);
        lemma_settled_after_pop(a, b, a.trail@[k].node.children@[c]);
    }
}

proof fn lemma_push_covered(a: Traversal, b: Traversal, entry: (usize, usize), c: int)
    requires
        a.covered(c),
        a.trail@.len() > 0,
        0 <= c < a.trail@.last().node.children@.len(),
        entry.0 == a.trail@.last().node.children@[c],
        b.pending@ == a.pending@.push(entry),
        b.trail@ == a.trail@,
        b.root@ == a.root@,
        b.position@ == a.position@,
        b.pruned@ == a.pruned@,
    ensures
        b.covered(c + 1),
{
    reveal(Traversal::covered);
    lemma_settled_after_push(a, b, entry, a.root@);
    assert(b.pending@[b.pending@.len() - 1].0 == entry.0);
    assert(b.settled(entry.0));
    assert forall|k: int, d: int|
        0 <= k < b.trail@.len() && 0 <= d < b.trail@[k].node.children@.len() && (k + 1
            < b.trail@.len() || d < c + 1) implies b.settled(
        #[trigger] b.trail@[k].node.children@[d],
    ) by {
        if k + 1 < b.trail@.len() || d < c {
            lemma_settled_after_push(a, b, entry, a.trail@[k].node.children@[d]);
        }
    }
}

proof fn lemma_covered_in_full(a: Traversal, limit: int)
    requires
        a.covered(limit),
        a.trail@.len() > 0 ==> limit >= a.trail@.last().node.children@.len(),
    ensures
        a.all_covered(),
{
    reveal(Traversal::covered);
    reveal(Traversal::all_covered);
}

impl Traversal {
    proof fn lemma_bounds(&self)
        requires
            self.records(),
        ensures
            self.trail@.len() <= usize::MAX,
            forall|index: usize| self.visited@.contains(index) <==> self.visited(index),
            forall|m: int|
                0 <= m < self.pending@.len() ==> (#[trigger] self.pending@[m]).1
                    <= self.trail@.len(),
    {
        broadcast use vstd::std_specs::hash::group_hash_axioms;

        reveal(Traversal::indexed);
        reveal(Traversal::queued);
        assert(self.visited@.len() == spec_hash_set_len(&self.visited));
    }

    /// Takes the last entry off the work list: one whose index has been
    /// visited already, or one for which no node is to be had.
    fn drop_top(&mut self, prune: bool)
        requires
            old(self).records(),
            old(self).all_covered(),
            !old(self).stopped,
            old(self).pending@.len() > 0,
            prune || old(self).visited@.contains(old(self).pending@.last().0),
        ensures
            final(self).records(),
            final(self).all_covered(),
            !final(self).stopped,
            final(self).pending@ == old(self).pending@.drop_last(),
            final(self).trail@ == old(self).trail@,
            final(self).position@ == old(self).position@,
            final(self).root@ == old(self).root@,
            final(self).unavailable@ == old(self).unavailable@,
            final(self).pruned@ == if prune {
                old(self).pruned@.insert(old(self).pending@.last().0)
            } else {
                old(self).pruned@
            },
    {
        let ghost top = self.pending@.last();
        proof {
            reveal(Traversal::queued);
        }
        self.pending.pop();
        self.origin = Ghost(self.origin@.drop_last());
        self.slots = Ghost(self.slots@.drop_last());
        if prune {
            self.pruned = Ghost(self.pruned@.insert(top.0));
        }
        proof {
            old(self).lemma_bounds();
            if !prune {
                assert(old(self).visited@.contains(top.0));
                assert(old(self).visited(top.0));
                assert(self.position@.contains_key(top.0));
            } else {
                assert(self.pruned@.contains(top.0));
            }
            assert(self.indexed()) by {
                reveal(Traversal::indexed);
            }
            assert(self.traced()) by {
                reveal(Traversal::traced);
            }
            assert(self.answered()) by {
                reveal(Traversal::answered);
            }
            assert(self.depth_first()) by {
                reveal(Traversal::depth_first);
            }
            lemma_pop_queued(*old(self), *self);
            lemma_pop_stacked(*old(self), *self);
            lemma_pop_covered(*old(self), *self);
        }
    }

    /// Takes the last entry off the work list and records the visit of its
    /// node, with the visitor's answer. The children of the node are not on
    /// the work list yet.
    fn enter(&mut self, node: &Arc<Node>, answer: bool)
        requires
            old(self).records(),
            old(self).all_covered(),
            !old(self).stopped,
            old(self).pending@.len() > 0,
            !old(self).visited@.contains(old(self).pending@.last().0),
        ensures
            final(self).indexed(),
            final(self).traced(),
            final(self).queued(),
            final(self).stacked(),
            final(self).depth_first(),
            final(self).covered(0),
            forall|m: int|
                0 <= m < final(self).origin@.len() ==> #[trigger] final(self).origin@[m]
                    < final(self).trail@.len() - 1,
            !final(self).stopped,
            final(self).pending@ == old(self).pending@.drop_last(),
            final(self).trail@.len() == old(self).trail@.len() + 1,
            final(self).trail@.drop_last() == old(self).trail@,
            forall|k: int|
                0 <= k < old(self).trail@.len() ==> (#[trigger] final(self).trail@[k]).answer,
            final(self).trail@.last().index == old(self).pending@.last().0,
            final(self).trail@.last().level == old(self).pending@.last().1,
            final(self).trail@.last().node == *node,
            final(self).trail@.last().answer == answer,
            final(self).trail@.len() <= usize::MAX,
            final(self).position@ == old(self).position@.insert(
                old(self).pending@.last().0,
                old(self).trail@.len() as int,
            ),
            final(self).root@ == old(self).root@,
            final(self).unavailable@ == old(self).unavailable@,
            final(self).pruned@ == old(self).pruned@,
    {
        let ghost top = self.pending@.last();
        let ghost came_from = self.origin@.last();
        let ghost slot = self.slots@.last();
        let ghost at = self.trail@.len() as int;
        proof {
            reveal(Traversal::queued);
            assert(justified(self.trail@, self.root@, top.0, top.1, came_from, slot));
        }
        let index = self.pending[self.pending.len() - 1].0;
        self.pending.pop();
        self.insert_visited(index);
        self.origin = Ghost(self.origin@.drop_last());
        self.slots = Ghost(self.slots@.drop_last());
        self.position = Ghost(self.position@.insert(top.0, at));
        self.trail = Ghost(
            self.trail@.push(
                Visit { index: top.0, level: top.1, node: *node, answer, parent: came_from, slot },
            ),
        );
        proof {
            assert(self.trail@.drop_last() =~= old(self).trail@);
            assert(extends(old(self).trail@, self.trail@));
            lemma_enter_indexed(*old(self), *self, top.0);
            lemma_enter_traced(*old(self), *self);
            lemma_pop_queued(*old(self), *self);
            lemma_enter_ordered(*old(self), *self);
            lemma_enter_covered(*old(self), *self);
            assert(self.visited@.len() == spec_hash_set_len(&self.visited));
            assert(self.trail@.len() <= usize::MAX) by {
                reveal(Traversal::indexed);
            }
            assert forall|k: int| 0 <= k < old(self).trail@.len() implies (
            #[trigger] self.trail@[k]).answer by {
                reveal(Traversal::answered);
                assert(self.trail@[k] == old(self).trail@[k]);
            }
        }
    }

    fn insert_visited(&mut self, index: usize)
        ensures
            final(self).visited@ == old(self).visited@.insert(index),
            final(self).pending == old(self).pending,
            final(self).unavailable == old(self).unavailable,
            final(self).stopped == old(self).stopped,
            final(self).root == old(self).root,
            final(self).trail == old(self).trail,
            final(self).origin == old(self).origin,
            final(self).slots == old(self).slots,
            final(self).position == old(self).position,
            final(self).pruned == old(self).pruned,
    {
        broadcast use vstd::std_specs::hash::group_hash_axioms;

        self.visited.insert(index);
    }

    /// Puts the children of the node visited last on the work list, in the
    /// order the node lists them, one level below the node.
    fn push_children(&mut self, node: &Arc<Node>, level: usize)
        requires
            old(self).records(),
            old(self).covered(0),
            !old(self).stopped,
            old(self).trail@.len() > 0,
            old(self).trail@.last().node == *node,
            old(self).trail@.last().level == level,
            level + 1 <= old(self).trail@.len() <= usize::MAX,
            forall|m: int|
                0 <= m < old(self).origin@.len() ==> #[trigger] old(self).origin@[m] < old(
                    self,
                ).trail@.len() - 1,
        ensures
            final(self).records(),
            final(self).all_covered(),
            !final(self).stopped,
            final(self).trail@ == old(self).trail@,
            final(self).position@ == old(self).position@,
            final(self).root@ == old(self).root@,
            final(self).unavailable@ == old(self).unavailable@,
            final(self).pruned@ == old(self).pruned@,
            final(self).pending@.len() == old(self).pending@.len() + node.children@.len(),
            forall|c: int|
                0 <= c < node.children@.len() ==> #[trigger] final(self).pending@[old(self).pending@.len() + c] == (node.children@[c], (level + 1) as usize),
            forall|m: int|
                0 <= m < old(self).pending@.len() ==> #[trigger] final(self).pending@[m] == old(self).pending@[m],
    {
        let mut c: usize = 0;
        proof {
            reveal(Traversal::queued);
        }
        while c < node.children.len()
            invariant
                c <= node.children@.len(),
                self.records(),
                self.covered(c as int),
                !self.stopped,
                self.trail@ == old(self).trail@,
                self.position@ == old(self).position@,
                self.root@ == old(self).root@,
                self.unavailable@ == old(self).unavailable@,
                self.pruned@ == old(self).pruned@,
                self.trail@.len() > 0,
                self.trail@.last().node == *node,
                self.trail@.last().level == level,
                level + 1 <= self.trail@.len() <= usize::MAX,
                self.pending@.len() == old(self).pending@.len() + c,
                self.origin@.len() == self.pending@.len(),
                self.slots@.len() == self.pending@.len(),
                forall|m: int|
                    0 <= m < self.origin@.len() ==> #[trigger] self.origin@[m] <= self.trail@.len()
                        - 1 && (self.origin@[m] == self.trail@.len() - 1 ==> self.slots@[m] < c),
                forall|d: int|
                    0 <= d < c ==> #[trigger] self.pending@[old(self).pending@.len() + d] == (
                        node.children@[d],
                        (level + 1) as usize,
                    ),
                forall|m: int|
                    0 <= m < old(self).pending@.len() ==> #[trigger] self.pending@[m] == old(self).pending@[m],
            decreases node.children@.len() - c,
        {
            let ghost before = *self;
            let child = node.children[c];
            self.pending.push((child, level + 1));
            self.origin = Ghost(self.origin@.push(self.trail@.len() - 1));
            self.slots = Ghost(self.slots@.push(c as int));
            proof {
                assert(node.children@[c as int] == child);
                assert(self.indexed()) by {
                    reveal(Traversal::indexed);
                }
                assert(self.traced()) by {
                    reveal(Traversal::traced);
                }
                assert(self.answered()) by {
                    reveal(Traversal::answered);
                }
                assert(self.depth_first()) by {
                    reveal(Traversal::depth_first);
                }
                lemma_push_queued(before, *self, child, level, c as int);
                lemma_push_stacked(before, *self, c as int);
                assert forall|m: int| 0 <= m < self.origin@.len() implies #[trigger] self.origin@[m]
                    <= self.trail@.len() - 1 && (self.origin@[m] == self.trail@.len() - 1
                    ==> self.slots@[m] < c + 1) by {
                    if m < before.origin@.len() {
                        assert(self.origin@[m] == before.origin@[m]);
                        assert(self.slots@[m] == before.slots@[m]);
                    }
                }
                lemma_push_covered(before, *self, (child, (level + 1) as usize), c as int);
            }
            c += 1;
        }
        proof {
            lemma_covered_in_full(*self, c as int);
        }
    }

    /// Ends the walk after a visit that the visitor answered with `false`:
    /// the work list is emptied.
    fn stop(&mut self)
        requires
            old(self).indexed(),
            old(self).traced(),
            old(self).depth_first(),
            old(self).trail@.len() > 0,
            !old(self).trail@.last().answer,
            forall|k: int|
                0 <= k < old(self).trail@.len() - 1 ==> (#[trigger] old(self).trail@[k]).answer,
        ensures
            final(self).records(),
            final(self).stopped,
            final(self).pending@.len() == 0,
            final(self).trail@ == old(self).trail@,
            final(self).position@ == old(self).position@,
            final(self).root@ == old(self).root@,
            final(self).unavailable@ == old(self).unavailable@,
            final(self).pruned@ == old(self).pruned@,
    {
        self.stopped = true;
        self.pending.clear();
        self.origin = Ghost(Seq::empty());
        self.slots = Ghost(Seq::empty());
        proof {
            assert(self.indexed()) by {
                reveal(Traversal::indexed);
            }
            assert(self.traced()) by {
                reveal(Traversal::traced);
            }
            assert(self.queued()) by {
                reveal(Traversal::queued);
            }
            assert(self.answered()) by {
                reveal(Traversal::answered);
            }
            assert(self.stacked()) by {
                reveal(Traversal::stacked);
            }
            assert(self.depth_first()) by {
                reveal(Traversal::depth_first);
            }
        }
    }

    /// After a visit that the visitor answered with `true`, the record of
    /// the answers is in order again.
    proof fn lemma_answered_on(&self)
        requires
            !self.stopped,
            forall|k: int| 0 <= k < self.trail@.len() ==> (#[trigger] self.trail@[k]).answer,
        ensures
            self.answered(),
    {
        reveal(Traversal::answered);
    }
}

/// Whether no node is to be had for `index`: there is none, or its page is
/// among those that are not to be had.
pub open spec fn unresolved(outcome: Lookup<Option<Node>>, unavailable: Set<usize>) -> bool {
    match outcome {
        Lookup::Ready(Some(_)) => false,
        Lookup::Ready(None) => true,
        Lookup::Missing(page) => unavailable.contains(page),
    }
}

impl NodeArray {
    /// A walk of the scene that stands at its beginning: at the root node.
    pub fn walk(&self, manager: &ResourceManager) -> (walk: Traversal)
        ensures
            walk.well_formed(),
            walk.root() == root_index_of(manager.layout()),
            walk.trail() == Seq::<Visit>::empty(),
            walk.pending() == seq![(root_index_of(manager.layout()), 0usize)],
            walk.pruned() == Set::<usize>::empty(),
            walk.unavailable() == Set::<usize>::empty(),
            !walk.stopped(),
    {
        Traversal::new(self.root_index(manager))
    }

    /// Walks on from where `walk` stands, until the walk ends, the visitor
    /// stops it, or a page is needed that is not in memory.
    ///
    /// The last entry of the work list is taken up each time. An index that
    /// has been visited already is passed over. An index for which no node
    /// is to be had is dropped. Any other is visited: its node is cached,
    /// the visitor is called with the node and its level, and, unless the
    /// visitor returns `false`, the children of the node are put on the work
    /// list one level down, in the order listed; the child listed last is
    /// therefore visited first.
    ///
    /// Returns `Ready(true)` when the work list is empty, `Ready(false)`
    /// when the visitor has stopped the walk, and `Missing(page)` when the
    /// node to visit next lies in a page that is not in memory; the caller
    /// then loads the page, or marks it unavailable, and calls again.
    pub fn traverse<F: FnMut(&Arc<Node>, &usize) -> bool>(
        &mut self,
        manager: &ResourceManager,
        walk: &mut Traversal,
        callback: &mut F,
    ) -> (r: Lookup<bool>)
        requires
            old(walk).well_formed(),
            forall|node: &Arc<Node>, level: &usize| call_requires(*old(callback), (node, level)),
        ensures
            final(walk).well_formed(),
            final(walk).root() == old(walk).root(),
            final(walk).unavailable() == old(walk).unavailable(),
            old(walk).trail().is_prefix_of(final(walk).trail()),
            old(walk).stopped() ==> r == Lookup::Ready(false) && final(walk).trail() == old(walk).trail(),
            match r {
                Lookup::Ready(true) => final(walk).finished(),
                Lookup::Ready(false) => final(walk).stopped(),
                Lookup::Missing(page) => {
                    &&& !final(walk).stopped()
                    &&& final(walk).pending().len() > 0
                    &&& !final(walk).visited(final(walk).pending().last().0)
                    &&& !final(walk).unavailable().contains(page)
                    &&& resolution(
                        final(self)@,
                        manager.layout(),
                        manager.pages(),
                        final(walk).pending().last().0,
                    ) == Lookup::<Option<Node>>::Missing(page)
                },
            },
            forall|k: int|
                old(walk).trail().len() <= k < final(walk).trail().len() ==> {
                    let visit = #[trigger] final(walk).trail()[k];
                    &&& resolution(old(self)@, manager.layout(), manager.pages(), visit.index)
                        == Lookup::Ready(Some(*visit.node))
                    &&& final(self)@.contains_key(visit.index)
                    &&& final(self)@[visit.index] == visit.node
                    &&& call_ensures(*old(callback), (&visit.node, &visit.level), visit.answer)
                },
            forall|index: usize|
                old(walk).pruned().contains(index) ==> final(walk).pruned().contains(index),
            forall|index: usize| #[trigger]
                final(walk).pruned().contains(index) && !old(walk).pruned().contains(index)
                    ==> unresolved(
                    resolution(old(self)@, manager.layout(), manager.pages(), index),
                    old(walk).unavailable(),
                ),
            old(self)@.submap_of(final(self)@),
            resolve_alike(final(self)@, old(self)@, manager.layout(), manager.pages()),
            forall|index: usize|
                final(self)@.contains_key(index) ==> old(self)@.contains_key(index) || (final(walk).visited(index) && final(walk).position_of(index) >= old(walk).trail().len()),
    {
        broadcast use vstd::std_specs::hash::group_hash_axioms;

        if walk.stopped {
            return Lookup::Ready(false);
        }
        proof {
            walk.lemma_bounds();
        }
        let ghost layout = manager.layout();
        let ghost pages = manager.pages();
        loop
            invariant
                layout == manager.layout(),
                pages == manager.pages(),
                walk.records(),
                walk.all_covered(),
                !walk.stopped,
                !old(walk).stopped,
                walk.root@ == old(walk).root@,
                walk.unavailable@ == old(walk).unavailable@,
                old(walk).trail@.is_prefix_of(walk.trail@),
                *callback == *old(callback),
                forall|node: &Arc<Node>, level: &usize| call_requires(*callback, (node, level)),
                forall|k: int|
                    old(walk).trail@.len() <= k < walk.trail@.len() ==> {
                        let visit = #[trigger] walk.trail@[k];
                        &&& resolution(old(self)@, layout, pages, visit.index) == Lookup::Ready(
                            Some(*visit.node),
                        )
                        &&& self@.contains_key(visit.index)
                        &&& self@[visit.index] == visit.node
                        &&& call_ensures(*old(callback), (&visit.node, &visit.level), visit.answer)
                    },
                forall|index: usize|
                    old(walk).pruned@.contains(index) ==> walk.pruned@.contains(index),
                forall|index: usize| #[trigger]
                    walk.pruned@.contains(index) && !old(walk).pruned@.contains(index)
                        ==> unresolved(
                        resolution(old(self)@, layout, pages, index),
                        old(walk).unavailable@,
                    ),
                old(self)@.submap_of(self@),
                resolve_alike(self@, old(self)@, layout, pages),
                forall|index: usize|
                    self@.contains_key(index) ==> old(self)@.contains_key(index) || (
                    walk.position@.contains_key(index) && walk.position@[index] >= old(walk).trail@.len()),
            decreases usize::MAX - walk.trail@.len(), walk.pending@.len(),
        {
            if walk.pending.len() == 0 {
                return Lookup::Ready(true);
            }
            let (index, level) = walk.pending[walk.pending.len() - 1];
            assert(walk.pending@.last() == (index, level));
            proof {
                walk.lemma_bounds();
            }
            if walk.visited.contains(&index) {
                walk.drop_top(false);
            } else {
                let ghost cached = self@;
                let ghost trail = walk.trail@;
                let ghost pruned = walk.pruned@;
                assert(resolution(cached, layout, pages, index) == resolution(
                    old(self)@,
                    layout,
                    pages,
                    index,
                ));
                match self.get(manager, &index) {
                    Lookup::Missing(page) => {
                        if walk.unavailable.contains(&page) {
                            walk.drop_top(true);
                        } else {
                            return Lookup::Missing(page);
                        }
                    },
                    Lookup::Ready(None) => {
                        walk.drop_top(true);
                    },
                    Lookup::Ready(Some(node)) => {
                        let go_on = callback(&node, &level);
                        assert(call_ensures(*old(callback), (&node, &level), go_on));
                        walk.enter(&node, go_on);
                        proof {
                            assert(cached.submap_of(self@));
                            assert forall|i: usize| #[trigger]
                                old(self)@.dom().contains(i) implies self@.dom().contains(i)
                                && old(self)@[i] == self@[i] by {
                                assert(cached.dom().contains(i));
                            }
                            assert forall|i: usize| #[trigger]
                                resolution(self@, layout, pages, i) == resolution(
                                    old(self)@,
                                    layout,
                                    pages,
                                    i,
                                ) by {
                                assert(resolution(cached, layout, pages, i) == resolution(
                                    old(self)@,
                                    layout,
                                    pages,
                                    i,
                                ));
                            }
                            assert forall|k: int|
                                old(walk).trail@.len() <= k < walk.trail@.len() implies {
                                let visit = #[trigger] walk.trail@[k];
                                &&& resolution(old(self)@, layout, pages, visit.index)
                                    == Lookup::Ready(Some(*visit.node))
                                &&& self@.contains_key(visit.index)
                                &&& self@[visit.index] == visit.node
                                &&& call_ensures(
                                    *old(callback),
                                    (&visit.node, &visit.level),
                                    visit.answer,
                                )
                            } by {
                                if k < trail.len() {
                                    assert(walk.trail@[k] == trail[k]);
                                    assert(cached.dom().contains(trail[k].index));
                                }
                            }
                            assert(old(walk).trail@.is_prefix_of(walk.trail@)) by {
                                assert(walk.trail@.drop_last() == trail);
                                assert forall|k: int|
                                    0 <= k < old(walk).trail@.len() implies old(walk).trail@[k]
                                    == walk.trail@[k] by {
                                    assert(trail[k] == walk.trail@.drop_last()[k]);
                                }
                                assert(old(walk).trail@ =~= walk.trail@.subrange(
                                    0,
                                    old(walk).trail@.len() as int,
                                ));
                            }
                        }
                        if go_on {
                            proof {
                                walk.lemma_answered_on();
                            }
                            walk.push_children(&node, level);
                        } else {
                            walk.stop();
                            return Lookup::Ready(false);
                        }
                    },
                }
            }
        }
    }
}

/// No index is visited twice.
pub proof fn lemma_visited_once(walk: Traversal, a: int, b: int)
    requires
        walk.well_formed(),
        0 <= a < walk.trail().len(),
        0 <= b < walk.trail().len(),
        a != b,
    ensures
        walk.trail()[a].index != walk.trail()[b].index,
{
    reveal(Traversal::indexed);
    assert(walk.position@[walk.trail@[a].index] == a);
    assert(walk.position@[walk.trail@[b].index] == b);
}

/// The first visit is that of the root, at level 0. Every other visit is
/// that of a child: a node visited before lists its index, and its level is
/// that node's level plus one.
pub proof fn lemma_child_is_one_level_down(walk: Traversal, k: int)
    requires
        walk.well_formed(),
        0 <= k < walk.trail().len(),
    ensures
        walk.trail()[k].parent < k,
        walk.trail()[k].parent < 0 ==> k == 0 && walk.trail()[k].index == walk.root()
            && walk.trail()[k].level == 0,
        walk.trail()[k].parent >= 0 ==> {
            let parent = walk.trail()[walk.trail()[k].parent];
            &&& 0 <= walk.trail()[k].slot < parent.node.children@.len()
            &&& parent.node.children@[walk.trail()[k].slot] == walk.trail()[k].index
            &&& walk.trail()[k].level == parent.level + 1
        },
{
    reveal(Traversal::traced);
    let visit = walk.trail@[k];
    assert(justified(walk.trail@, walk.root@, visit.index, visit.level, visit.parent, visit.slot));
    if visit.parent < 0 && k != 0 {
        let first = walk.trail@[0];
        assert(justified(
            walk.trail@,
            walk.root@,
            first.index,
            first.level,
            first.parent,
            first.slot,
        ));
        assert(first.parent < 0);
        lemma_visited_once(walk, 0, k);
    }
}

/// The walk goes depth first: between the visit of a node and the visit of
/// any of its children lie only visits of nodes below that node, so each
/// subtree is walked through before the next is begun.
pub proof fn lemma_walk_is_depth_first(walk: Traversal, k: int, j: int)
    requires
        walk.well_formed(),
        0 <= k < walk.trail().len(),
        walk.trail()[k].parent < j < k,
    ensures
        walk.trail()[j].parent >= walk.trail()[k].parent,
{
    reveal(Traversal::depth_first);
}

/// Of two children of a node, the one listed later is visited earlier.
pub proof fn lemma_listed_later_is_visited_earlier(walk: Traversal, k1: int, k2: int)
    requires
        walk.well_formed(),
        0 <= k1 < walk.trail().len(),
        0 <= k2 < walk.trail().len(),
        walk.trail()[k1].parent == walk.trail()[k2].parent,
        walk.trail()[k1].slot > walk.trail()[k2].slot,
    ensures
        k1 < k2,
{
    reveal(Traversal::depth_first);
}

/// The visitor's `false` ends the walk: only the last visit can have been
/// answered with `false`, the walk is stopped exactly when it has been, and
/// a stopped walk has nothing left on its work list.
pub proof fn lemma_false_ends_the_walk(walk: Traversal)
    requires
        walk.well_formed(),
    ensures
        forall|k: int|
            0 <= k < walk.trail().len() - 1 ==> (#[trigger] walk.trail()[k]).answer,
        walk.stopped() <==> walk.trail().len() > 0 && !walk.trail().last().answer,
        walk.stopped() ==> walk.pending().len() == 0,
{
    reveal(Traversal::answered);
    reveal(Traversal::queued);
    if walk.trail@.len() > 0 && !walk.trail@.last().answer {
        assert(walk.trail@[walk.trail@.len() - 1].answer || walk.stopped);
    }
}

/// Visited means: some visit of the trail is that of the index.
pub proof fn lemma_visited_is_on_trail(walk: Traversal, index: usize)
    requires
        walk.well_formed(),
    ensures
        walk.visited(index) <==> exists|k: int|
            0 <= k < walk.trail().len() && (#[trigger] walk.trail()[k]).index == index,
        walk.visited(index) ==> 0 <= walk.position_of(index) < walk.trail().len()
            && walk.trail()[walk.position_of(index)].index == index,
{
    reveal(Traversal::indexed);
    if walk.visited(index) {
        assert(walk.position@.contains_key(index));
        let k = walk.position@[index];
        assert(walk.trail@[k].index == index);
    }
}

/// A walk that has finished has left nothing out: the root and every child
/// that a visited node lists have been visited, or no node could be had for
/// them.
pub proof fn lemma_finished_walk_is_closed(walk: Traversal)
    requires
        walk.well_formed(),
        walk.finished(),
    ensures
        walk.visited(walk.root()) || walk.pruned().contains(walk.root()),
        forall|k: int, c: int|
            0 <= k < walk.trail().len() && 0 <= c < walk.trail()[k].node.children@.len() ==> {
                let child = #[trigger] walk.trail()[k].node.children@[c];
                walk.visited(child) || walk.pruned().contains(child)
            },
{
    reveal(Traversal::all_covered);
    assert(walk.all_covered());
    assert(walk.settled(walk.root@));
    assert forall|k: int, c: int|
        0 <= k < walk.trail().len() && 0 <= c < walk.trail()[k].node.children@.len() implies {
        let child = #[trigger] walk.trail()[k].node.children@[c];
        walk.visited(child) || walk.pruned().contains(child)
    } by {
        assert(walk.settled(walk.trail@[k].node.children@[c]));
    }
}

/// A walk that has finished has visited everything within reach: along any
/// path that starts at the root, follows the child lists of the visited
/// nodes and meets no index for which no node could be had, every index has
/// been visited.
pub proof fn lemma_finished_walk_reaches(walk: Traversal, path: Seq<usize>, j: int)
    requires
        walk.well_formed(),
        walk.finished(),
        0 <= j < path.len(),
        path[0] == walk.root(),
        forall|i: int| 0 <= i < path.len() ==> !walk.pruned().contains(#[trigger] path[i]),
        forall|i: int|
            0 <= i < path.len() - 1 && walk.visited(#[trigger] path[i])
                ==> walk.trail()[walk.position_of(path[i])].node.children@.contains(path[i + 1]),
    ensures
        walk.visited(path[j]),
    decreases j,
{
    lemma_finished_walk_is_closed(walk);
    if j > 0 {
        lemma_finished_walk_reaches(walk, path, j - 1);
        let before = path[j - 1];
        lemma_visited_is_on_trail(walk, before);
        let k = walk.position_of(before);
        let children = walk.trail()[k].node.children@;
        assert(children.contains(path[j]));
        let c = choose|c: int| 0 <= c < children.len() && children[c] == path[j];
        assert(walk.trail()[k].node.children@[c] == path[j]);
    }
}

} // verus!
