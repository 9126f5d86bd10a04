//! Nodes, node pages and the node graph.

use vstd::prelude::*;
use std::collections::HashMap;
use std::collections::HashSet;
use std::sync::Arc;
use crate::accessor::{share, Accessor, Lookup};
use crate::cache::node_lookup;
use crate::err::ErrorView;
use crate::mesh::Mesh;
use crate::obb::OrientedBoundingBox;
use crate::options::LODSelectionMetric;
use crate::resource::ResourceManager;

verus! {

/// The page that holds the node `node_index`, where every page holds
/// `nodes_per_page` nodes.
pub open spec fn page_index_of(node_index: int, nodes_per_page: int) -> int {
    node_index / nodes_per_page
}

/// The position of the node `node_index` within its page.
pub open spec fn page_offset_of(node_index: int, nodes_per_page: int) -> int {
    node_index % nodes_per_page
}

/// A page index and an offset address exactly one node: the page's first
/// index plus the offset is the node's index again, and the offset is less
/// than the page size.
pub proof fn lemma_page_address(node_index: int, nodes_per_page: int)
    requires
        0 <= node_index,
        0 < nodes_per_page,
    ensures
        page_index_of(node_index, nodes_per_page) * nodes_per_page + page_offset_of(
            node_index,
            nodes_per_page,
        ) == node_index,
        0 <= page_offset_of(node_index, nodes_per_page) < nodes_per_page,
        0 <= page_index_of(node_index, nodes_per_page) <= node_index,
{
    assert(page_index_of(node_index, nodes_per_page) * nodes_per_page + page_offset_of(
        node_index,
        nodes_per_page,
    ) == node_index && 0 <= page_offset_of(node_index, nodes_per_page) < nodes_per_page && 0
        <= page_index_of(node_index, nodes_per_page) <= node_index) by (nonlinear_arith)
        requires
            0 <= node_index,
            0 < nodes_per_page,
            page_index_of(node_index, nodes_per_page) == node_index / nodes_per_page,
            page_offset_of(node_index, nodes_per_page) == node_index % nodes_per_page,
    ;
}

/// The index of the page that holds a node.
pub fn get_node_page_index(node_index: &usize, nodes_per_page: &usize) -> (page_index: usize)
    requires
        *nodes_per_page > 0,
    ensures
        page_index == page_index_of(*node_index as int, *nodes_per_page as int),
        page_index * *nodes_per_page + page_offset_of(*node_index as int, *nodes_per_page as int)
            == *node_index,
{
    proof {
        lemma_page_address(*node_index as int, *nodes_per_page as int);
    }
    *node_index / *nodes_per_page
}

/// The position of a node within the page that holds it.
pub fn get_node_index_in_node_page(node_index: &usize, nodes_per_page: &usize) -> (offset: usize)
    requires
        *nodes_per_page > 0,
    ensures
        offset == page_offset_of(*node_index as int, *nodes_per_page as int),
        offset < *nodes_per_page,
        page_index_of(*node_index as int, *nodes_per_page as int) * *nodes_per_page + offset
            == *node_index,
{
    proof {
        lemma_page_address(*node_index as int, *nodes_per_page as int);
    }
    *node_index % *nodes_per_page
}

/// One node of the tree. `lod_threshold` is the bit pattern of a real number.
#[derive(Debug, Clone, PartialEq, Eq)]
pub struct Node {
    pub index: usize,
    pub obb: OrientedBoundingBox,
    pub parent_index: Option<usize>,
    pub children: Vec<usize>,
    pub lod_threshold: Option<u64>,
    pub mesh: Option<Mesh>,
}

impl Node {
    /// Whether the node is the root: the node without a parent.
    pub fn is_root(&self) -> (r: bool)
        ensures
            r == self.parent_index is None,
    {
        self.parent_index.is_none()
    }

    /// Whether the node is a leaf: a node without children.
    pub fn is_leaf(&self) -> (r: bool)
        ensures
            r == (self.children@.len() == 0),
    {
        self.children.len() == 0
    }
}

/// A page of nodes: the unit in which nodes are stored and fetched.
#[derive(Debug, Clone, PartialEq, Eq)]
pub struct NodePage {
    pub nodes: Vec<Arc<Node>>,
    pub index: Option<usize>,
}

impl NodePage {
    /// The number of nodes in the page.
    pub fn len(&self) -> (n: usize)
        ensures
            n == self.nodes@.len(),
    {
        self.nodes.len()
    }

    /// Whether the page holds no node.
    pub fn is_empty(&self) -> (r: bool)
        ensures
            r == (self.nodes@.len() == 0),
    {
        self.nodes.len() == 0
    }
}

/// How the nodes of a scene are laid out in pages.
#[derive(Debug, Clone, PartialEq, Eq)]
pub struct NodePageDefinition {
    pub nodes_per_page: usize,
    pub lod_selection_metric: LODSelectionMetric,
    pub root_index: usize,
}

/// What asking for the node `index` comes to, given the nodes that are
/// cached, the page layout and the pages in memory: a cached node is
/// returned as it is cached; a node that is not cached is looked up in its
/// page; where that page is not in memory the page is missing; where the
/// lookup fails there is no such node.
pub open spec fn resolution(
    cached: Map<usize, Arc<Node>>,
    layout: Option<NodePageDefinition>,
    pages: Map<usize, NodePage>,
    index: usize,
) -> Lookup<Option<Node>> {
    if cached.contains_key(index) {
        Lookup::Ready(Some(*cached[index]))
    } else {
        match node_lookup(layout, pages, index) {
            Ok(Lookup::Ready(node)) => Lookup::Ready(Some(node)),
            Ok(Lookup::Missing(page)) => Lookup::Missing(page),
            Err(_) => Lookup::Ready(None),
        }
    }
}

/// The outcome of asking for a node, as contracts speak of it.
pub open spec fn resolution_view(r: Lookup<Option<Arc<Node>>>) -> Lookup<Option<Node>> {
    match r {
        Lookup::Ready(Some(node)) => Lookup::Ready(Some(*node)),
        Lookup::Ready(None) => Lookup::Ready(None),
        Lookup::Missing(page) => Lookup::Missing(page),
    }
}

/// The index of the root node: the one the layout names, or 0 for a scene
/// without a layout.
pub open spec fn root_index_of(layout: Option<NodePageDefinition>) -> usize {
    match layout {
        Some(layout) => layout.root_index,
        None => 0,
    }
}

/// The node graph: every node that has been asked for and found, by index.
/// A node, once cached, stays cached and is never replaced.
pub struct NodeArray {
    nodes: HashMap<usize, Arc<Node>>,
}

impl View for NodeArray {
    type V = Map<usize, Arc<Node>>;

    closed spec fn view(&self) -> Map<usize, Arc<Node>> {
        self.nodes@
    }
}

impl NodeArray {
    /// A node graph in which no node is cached yet.
    pub fn new() -> (nodes: Self)
        ensures
            nodes@ == Map::<usize, Arc<Node>>::empty(),
    {
        NodeArray { nodes: HashMap::new() }
    }

    /// The node `index`: from the cache, or else from its page, after which
    /// it is cached. Where its page is not in memory, the page is reported
    /// missing and nothing changes.
    pub fn get(&mut self, manager: &ResourceManager, index: &usize) -> (r: Lookup<
        Option<Arc<Node>>,
    >)
        ensures
            resolution_view(r) == resolution(
                old(self)@,
                manager.layout(),
                manager.pages(),
                *index,
            ),
            final(self)@ == match r {
                Lookup::Ready(Some(node)) => old(self)@.insert(*index, node),
                _ => old(self)@,
            },
            old(self)@.contains_key(*index) ==> final(self)@ == old(self)@,
    {
        broadcast use vstd::std_specs::hash::group_hash_axioms;

        match self.nodes.get(index) {
            Some(node) => {
                let found = share(node);
                assert(self@.insert(*index, found) =~= self@);
                return Lookup::Ready(Some(found));
            },
            None => {},
        }
        match manager.get_node(index) {
            Ok(Lookup::Ready(node)) => {
                self.nodes.insert(*index, share(&node));
                Lookup::Ready(Some(node))
            },
            Ok(Lookup::Missing(page)) => Lookup::Missing(page),
            Err(_) => Lookup::Ready(None),
        }
    }

    /// The node `index` as `get` would return it, without caching it.
    pub fn peek(&self, manager: &ResourceManager, index: &usize) -> (r: Lookup<Option<Arc<Node>>>)
        ensures
            resolution_view(r) == resolution(self@, manager.layout(), manager.pages(), *index),
    {
        broadcast use vstd::std_specs::hash::group_hash_axioms;

        match self.nodes.get(index) {
            Some(node) => {
                return Lookup::Ready(Some(share(node)));
            },
            None => {},
        }
        match manager.get_node(index) {
            Ok(Lookup::Ready(node)) => Lookup::Ready(Some(node)),
            Ok(Lookup::Missing(page)) => Lookup::Missing(page),
            Err(_) => Lookup::Ready(None),
        }
    }

    /// The index of the root node.
    pub fn root_index(&self, manager: &ResourceManager) -> (index: usize)
        ensures
            index == root_index_of(manager.layout()),
    {
        match &manager.scene_definition().node_pages {
            None => 0,
            Some(layout) => layout.root_index,
        }
    }

    /// The root node.
    pub fn root(&mut self, manager: &ResourceManager) -> (r: Lookup<Option<Arc<Node>>>)
        ensures
            resolution_view(r) == resolution(
                old(self)@,
                manager.layout(),
                manager.pages(),
                root_index_of(manager.layout()),
            ),
            final(self)@ == match r {
                Lookup::Ready(Some(node)) => old(self)@.insert(
                    root_index_of(manager.layout()),
                    node,
                ),
                _ => old(self)@,
            },
    {
        let root_index = self.root_index(manager);
        self.get(manager, &root_index)
    }

    /// The number of nodes cached so far.
    pub fn len(&self) -> (n: usize)
        ensures
            n == self@.len(),
    {
        broadcast use vstd::std_specs::hash::group_hash_axioms;

        self.nodes.len()
    }

    /// Whether no node is cached yet.
    pub fn is_empty(&self) -> (r: bool)
        ensures
            r == (self@.len() == 0),
    {
        broadcast use vstd::std_specs::hash::group_hash_axioms;

        self.nodes.len() == 0
    }
}

/// Goes through the indices 0, 1, 2, ... until one has no node.
pub struct NodeArrayIter {
    pub current_index: usize,
    /// Whether the node of the last index there is has been handed out.
    pub exhausted: bool,
}

impl NodeArrayIter {
    /// The node of the current index, after which the iterator stands at the
    /// next index. Where the current index has no node, the iteration is
    /// over: `None` is returned and the iterator stands at index 0 again.
    /// Where the page of the current index is not in memory, the page is
    /// reported missing and the iterator stays where it is.
    pub fn next(&mut self, nodes: &mut NodeArray, manager: &ResourceManager) -> (r: Lookup<
        Option<Arc<Node>>,
    >)
        ensures
            resolution_view(r) == if old(self).exhausted {
                Lookup::Ready(None)
            } else {
                resolution(
                    old(nodes)@,
                    manager.layout(),
                    manager.pages(),
                    old(self).current_index,
                )
            },
            match r {
                Lookup::Ready(Some(node)) => {
                    &&& final(nodes)@ == old(nodes)@.insert(old(self).current_index, node)
                    &&& if old(self).current_index < usize::MAX {
                        !final(self).exhausted && final(self).current_index == old(self).current_index + 1
                    } else {
                        final(self).exhausted
                    }
                },
                Lookup::Ready(None) => final(nodes)@ == old(nodes)@ && final(self).current_index
                    == 0 && !final(self).exhausted,
                Lookup::Missing(_) => final(nodes)@ == old(nodes)@ && *final(self) == *old(self),
            },
    {
        if self.exhausted {
            self.exhausted = false;
            self.current_index = 0;
            return Lookup::Ready(None);
        }
        match nodes.get(manager, &self.current_index) {
            Lookup::Ready(Some(node)) => {
                if self.current_index < usize::MAX {
                    self.current_index += 1;
                } else {
                    self.exhausted = true;
                }
                Lookup::Ready(Some(node))
            },
            Lookup::Ready(None) => {
                self.current_index = 0;
                Lookup::Ready(None)
            },
            Lookup::Missing(page) => Lookup::Missing(page),
        }
    }
}

impl NodeArray {
    /// An iterator over the nodes by index, which stands at index 0.
    pub fn iter(&self) -> (r: NodeArrayIter)
        ensures
            r.current_index == 0,
            !r.exhausted,
    {
        NodeArrayIter { current_index: 0, exhausted: false }
    }
}

/// Asking twice gives the same node, and the second time nothing is left to
/// fetch: once a node has been found and cached, it is found again as the
/// same node, whatever pages are in memory by then and whatever else has
/// been cached since.
pub proof fn lemma_resolution_is_kept(
    cached: Map<usize, Arc<Node>>,
    layout: Option<NodePageDefinition>,
    pages: Map<usize, NodePage>,
    index: usize,
    node: Arc<Node>,
    later_cached: Map<usize, Arc<Node>>,
    later_layout: Option<NodePageDefinition>,
    later_pages: Map<usize, NodePage>,
)
    requires
        resolution(cached, layout, pages, index) == Lookup::Ready(Some(*node)),
        cached.insert(index, node).submap_of(later_cached),
    ensures
        resolution(later_cached, later_layout, later_pages, index) == Lookup::Ready(Some(*node)),
{
    assert(cached.insert(index, node).contains_key(index));
    assert(later_cached.contains_key(index));
    assert(later_cached[index] == node);
}

/// A page is fetched at most once: after a page has been taken into memory,
/// no lookup of a node reports that page missing, and a lookup that found a
/// node finds the same node whatever pages are added.
pub proof fn lemma_pages_are_kept(
    layout: Option<NodePageDefinition>,
    pages: Map<usize, NodePage>,
    later_pages: Map<usize, NodePage>,
    index: usize,
)
    requires
        pages.submap_of(later_pages),
    ensures
        node_lookup(layout, pages, index) matches Ok(Lookup::Ready(node)) ==> node_lookup(
            layout,
            later_pages,
            index,
        ) == Ok::<Lookup<Node>, ErrorView>(Lookup::Ready(node)),
        node_lookup(layout, pages, index) is Err ==> node_lookup(layout, later_pages, index)
            == node_lookup(layout, pages, index),
        forall|page: usize|
            pages.contains_key(page) ==> node_lookup(layout, later_pages, index) != Ok::<
                Lookup<Node>,
                ErrorView,
            >(Lookup::Missing(page)),
{
    match layout {
        None => {},
        Some(l) => {
            if l.nodes_per_page != 0 {
                let page = page_index_of(index as int, l.nodes_per_page as int) as usize;
                if pages.contains_key(page) {
                    assert(later_pages.contains_key(page));
                    assert(later_pages[page] == pages[page]);
                }
            }
        },
    }
}

/// The nodes behind a list of handles.
pub open spec fn nodes_of(handles: Seq<Arc<Node>>) -> Seq<Node> {
    handles.map_values(|handle: Arc<Node>| *handle)
}

/// A list of nodes, or the page that is missing, as contracts speak of it.
pub open spec fn nodes_view(r: Lookup<Vec<Arc<Node>>>) -> Lookup<Seq<Node>> {
    match r {
        Lookup::Ready(handles) => Lookup::Ready(nodes_of(handles@)),
        Lookup::Missing(page) => Lookup::Missing(page),
    }
}

/// The parent of `node`: none for a node without a parent index, else what
/// asking for the parent index comes to.
pub open spec fn parent_resolution(
    cached: Map<usize, Arc<Node>>,
    layout: Option<NodePageDefinition>,
    pages: Map<usize, NodePage>,
    node: Node,
) -> Lookup<Option<Node>> {
    match node.parent_index {
        None => Lookup::Ready(None),
        Some(parent) => resolution(cached, layout, pages, parent),
    }
}

/// The nodes that the indices `children` resolve to, in the order listed.
/// An index for which there is no node is left out, and so is one whose page
/// is known to be unavailable. The first index whose page is missing and not
/// known to be unavailable makes the whole list wait for that page.
pub open spec fn resolved_children(
    cached: Map<usize, Arc<Node>>,
    layout: Option<NodePageDefinition>,
    pages: Map<usize, NodePage>,
    unavailable: Set<usize>,
    children: Seq<usize>,
) -> Lookup<Seq<Node>>
    decreases children.len(),
{
    if children.len() == 0 {
        Lookup::Ready(Seq::empty())
    } else {
        match resolved_children(cached, layout, pages, unavailable, children.drop_last()) {
            Lookup::Missing(page) => Lookup::Missing(page),
            Lookup::Ready(found) => match resolution(cached, layout, pages, children.last()) {
                Lookup::Ready(Some(node)) => Lookup::Ready(found.push(node)),
                Lookup::Ready(None) => Lookup::Ready(found),
                Lookup::Missing(page) => if unavailable.contains(page) {
                    Lookup::Ready(found)
                } else {
                    Lookup::Missing(page)
                },
            },
        }
    }
}

/// The siblings of `node`: the children of its parent, without every node
/// that carries the index of `node` itself. A node without a parent has
/// none, and neither has one whose parent cannot be had.
pub open spec fn resolved_siblings(
    cached: Map<usize, Arc<Node>>,
    layout: Option<NodePageDefinition>,
    pages: Map<usize, NodePage>,
    unavailable: Set<usize>,
    node: Node,
) -> Lookup<Seq<Node>> {
    match parent_resolution(cached, layout, pages, node) {
        Lookup::Missing(page) => if unavailable.contains(page) {
            Lookup::Ready(Seq::empty())
        } else {
            Lookup::Missing(page)
        },
        Lookup::Ready(None) => Lookup::Ready(Seq::empty()),
        Lookup::Ready(Some(parent)) => match resolved_children(
            cached,
            layout,
            pages,
            unavailable,
            parent.children@,
        ) {
            Lookup::Missing(page) => Lookup::Missing(page),
            Lookup::Ready(children) => Lookup::Ready(
                children.filter(|sibling: Node| sibling.index != node.index),
            ),
        },
    }
}

/// Whether the outcome of asking for a node makes the caller wait: its page
/// is missing and not known to be unavailable.
pub open spec fn blocks(outcome: Lookup<Option<Node>>, unavailable: Set<usize>) -> bool {
    outcome matches Lookup::Missing(page) && !unavailable.contains(page)
}

/// Whether two caches answer every request alike.
pub open spec fn resolve_alike(
    a: Map<usize, Arc<Node>>,
    b: Map<usize, Arc<Node>>,
    layout: Option<NodePageDefinition>,
    pages: Map<usize, NodePage>,
) -> bool {
    forall|index: usize| #[trigger]
        resolution(a, layout, pages, index) == resolution(b, layout, pages, index)
}

proof fn lemma_children_resolve_alike(
    a: Map<usize, Arc<Node>>,
    b: Map<usize, Arc<Node>>,
    layout: Option<NodePageDefinition>,
    pages: Map<usize, NodePage>,
    unavailable: Set<usize>,
    children: Seq<usize>,
)
    requires
        resolve_alike(a, b, layout, pages),
    ensures
        resolved_children(a, layout, pages, unavailable, children) == resolved_children(
            b,
            layout,
            pages,
            unavailable,
            children,
        ),
    decreases children.len(),
{
    if children.len() > 0 {
        lemma_children_resolve_alike(a, b, layout, pages, unavailable, children.drop_last());
        assert(resolution(a, layout, pages, children.last()) == resolution(
            b,
            layout,
            pages,
            children.last(),
        ));
    }
}

proof fn lemma_missing_page_blocks(
    cached: Map<usize, Arc<Node>>,
    layout: Option<NodePageDefinition>,
    pages: Map<usize, NodePage>,
    unavailable: Set<usize>,
    children: Seq<usize>,
    k: int,
    page: usize,
)
    requires
        0 <= k <= children.len(),
        resolved_children(cached, layout, pages, unavailable, children.subrange(0, k))
            == Lookup::<Seq<Node>>::Missing(page),
    ensures
        resolved_children(cached, layout, pages, unavailable, children) == Lookup::<
            Seq<Node>,
        >::Missing(page),
    decreases children.len() - k,
{
    if k == children.len() {
        assert(children.subrange(0, k) =~= children);
    } else {
        assert(children.subrange(0, k + 1).drop_last() =~= children.subrange(0, k));
        lemma_missing_page_blocks(cached, layout, pages, unavailable, children, k + 1, page);
    }
}

fn without_index(children: Vec<Arc<Node>>, index: usize) -> (kept: Vec<Arc<Node>>)
    ensures
        nodes_of(kept@) == nodes_of(children@).filter(|sibling: Node| sibling.index != index),
{
    let ghost keep = |sibling: Node| sibling.index != index;
    let mut kept: Vec<Arc<Node>> = Vec::new();
    let mut k: usize = 0;
    proof {
        reveal(Seq::filter);
        assert(nodes_of(children@).subrange(0, 0) =~= Seq::empty());
        assert(nodes_of(kept@) =~= Seq::empty());
    }
    while k < children.len()
        invariant
            k <= children@.len(),
            keep == |sibling: Node| sibling.index != index,
            nodes_of(kept@) == nodes_of(children@).subrange(0, k as int).filter(keep),
        decreases children@.len() - k,
    {
        let ghost before = kept@;
        proof {
            reveal(Seq::filter);
            let next = nodes_of(children@).subrange(0, k + 1);
            assert(next.drop_last() =~= nodes_of(children@).subrange(0, k as int));
            assert(next.last() == *children@[k as int]);
        }
        if children[k].index != index {
            kept.push(share(&children[k]));
            assert(nodes_of(kept@) =~= nodes_of(before).push(*children@[k as int]));
        }
        k += 1;
    }
    assert(nodes_of(children@).subrange(0, k as int) =~= nodes_of(children@));
    kept
}

impl Node {
    /// The parent node. The root has none.
    pub fn get_parent(&self, nodes: &mut NodeArray, manager: &ResourceManager) -> (r: Lookup<
        Option<Arc<Node>>,
    >)
        ensures
            resolution_view(r) == parent_resolution(
                old(nodes)@,
                manager.layout(),
                manager.pages(),
                *self,
            ),
            final(nodes)@ == match (self.parent_index, r) {
                (Some(parent), Lookup::Ready(Some(node))) => old(nodes)@.insert(parent, node),
                _ => old(nodes)@,
            },
            self.parent_index matches Some(parent) && old(nodes)@.contains_key(parent)
                ==> final(nodes)@ == old(nodes)@,
    {
        match self.parent_index {
            None => Lookup::Ready(None),
            Some(parent) => nodes.get(manager, &parent),
        }
    }

    /// The child nodes, in the order the node lists them. Children that do
    /// not resolve are left out. `unavailable` names the pages that the
    /// caller could not load: a child in one of them is left out as well.
    /// Where a child lies in a page that is not in memory and not known to
    /// be unavailable, that page is reported missing and nothing changes.
    /// Otherwise the children that are found are cached.
    pub fn get_children(
        &self,
        nodes: &mut NodeArray,
        manager: &ResourceManager,
        unavailable: &HashSet<usize>,
    ) -> (r: Lookup<Vec<Arc<Node>>>)
        ensures
            nodes_view(r) == resolved_children(
                old(nodes)@,
                manager.layout(),
                manager.pages(),
                unavailable@,
                self.children@,
            ),
            old(nodes)@.submap_of(final(nodes)@),
            resolve_alike(final(nodes)@, old(nodes)@, manager.layout(), manager.pages()),
            match r {
                Lookup::Missing(_) => final(nodes)@ == old(nodes)@,
                Lookup::Ready(_) => forall|index: usize|
                    final(nodes)@.contains_key(index) <==> old(nodes)@.contains_key(index) || (
                    self.children@.contains(index) && resolution(
                        old(nodes)@,
                        manager.layout(),
                        manager.pages(),
                        index,
                    ) matches Lookup::Ready(Some(_))),
            },
    {
        broadcast use vstd::std_specs::hash::group_hash_axioms;

        let ghost layout = manager.layout();
        let ghost pages = manager.pages();
        let mut k: usize = 0;
        proof {
            assert(self.children@.subrange(0, 0) =~= Seq::empty());
        }
        while k < self.children.len()
            invariant
                k <= self.children@.len(),
                layout == manager.layout(),
                pages == manager.pages(),
                nodes@ == old(nodes)@,
                resolved_children(
                    old(nodes)@,
                    layout,
                    pages,
                    unavailable@,
                    self.children@.subrange(0, k as int),
                ) is Ready,
                forall|j: int|
                    0 <= j < k ==> !blocks(
                        resolution(old(nodes)@, layout, pages, #[trigger] self.children@[j]),
                        unavailable@,
                    ),
            decreases self.children@.len() - k,
        {
            let child = self.children[k];
            proof {
                let next = self.children@.subrange(0, k + 1);
                assert(next.drop_last() =~= self.children@.subrange(0, k as int));
                assert(next.last() == child);
            }
            match nodes.peek(manager, &child) {
                Lookup::Missing(page) => {
                    if !unavailable.contains(&page) {
                        proof {
                            lemma_missing_page_blocks(
                                old(nodes)@,
                                layout,
                                pages,
                                unavailable@,
                                self.children@,
                                k + 1,
                                page,
                            );
                        }
                        return Lookup::Missing(page);
                    }
                },
                _ => {},
            }
            k += 1;
        }
        let mut found: Vec<Arc<Node>> = Vec::new();
        k = 0;
        proof {
            assert(self.children@.subrange(0, 0) =~= Seq::empty());
            assert(nodes_of(found@) =~= Seq::empty());
        }
        while k < self.children.len()
            invariant
                k <= self.children@.len(),
                layout == manager.layout(),
                pages == manager.pages(),
                old(nodes)@.submap_of(nodes@),
                resolve_alike(nodes@, old(nodes)@, layout, pages),
                forall|j: int|
                    0 <= j < self.children@.len() ==> !blocks(
                        resolution(old(nodes)@, layout, pages, #[trigger] self.children@[j]),
                        unavailable@,
                    ),
                forall|index: usize|
                    nodes@.contains_key(index) <==> old(nodes)@.contains_key(index) || (
                    self.children@.subrange(0, k as int).contains(index) && resolution(
                        old(nodes)@,
                        layout,
                        pages,
                        index,
                    ) matches Lookup::Ready(Some(_))),
                resolved_children(
                    old(nodes)@,
                    layout,
                    pages,
                    unavailable@,
                    self.children@.subrange(0, k as int),
                ) == Lookup::Ready(nodes_of(found@)),
            decreases self.children@.len() - k,
        {
            let child = self.children[k];
            let ghost before = nodes@;
            let ghost listed = found@;
            let ghost taken = self.children@.subrange(0, k as int);
            let ghost next = self.children@.subrange(0, k + 1);
            proof {
                assert(next.drop_last() =~= taken);
                assert(next.last() == child);
                assert(next[k as int] == child);
                assert(!blocks(
                    resolution(old(nodes)@, layout, pages, self.children@[k as int]),
                    unavailable@,
                ));
                assert(resolution(before, layout, pages, child) == resolution(
                    old(nodes)@,
                    layout,
                    pages,
                    child,
                ));
                assert forall|index: usize| next.contains(index) <==> taken.contains(index)
                    || index == child by {
                    if taken.contains(index) {
                        let at = choose|at: int| 0 <= at < taken.len() && taken[at] == index;
                        assert(next[at] == index);
                    }
                    if next.contains(index) && index != child {
                        let at = choose|at: int| 0 <= at < next.len() && next[at] == index;
                        assert(taken[at] == index);
                    }
                }
            }
            match nodes.get(manager, &child) {
                Lookup::Ready(Some(node)) => {
                    proof {
                        assert forall|index: usize| #[trigger]
                            resolution(nodes@, layout, pages, index) == resolution(
                                old(nodes)@,
                                layout,
                                pages,
                                index,
                            ) by {
                            assert(resolution(before, layout, pages, index) == resolution(
                                old(nodes)@,
                                layout,
                                pages,
                                index,
                            ));
                        }
                        assert(before.submap_of(nodes@));
                        assert forall|index: usize| #[trigger]
                            old(nodes)@.dom().contains(index) implies nodes@.dom().contains(index)
                            && old(nodes)@[index] == nodes@[index] by {
                            assert(before.dom().contains(index));
                        }
                    }
                    found.push(node);
                    assert(nodes_of(found@) =~= nodes_of(listed).push(*node));
                },
                Lookup::Ready(None) => {},
                Lookup::Missing(page) => {},
            }
            k += 1;
        }
        assert(self.children@.subrange(0, k as int) =~= self.children@);
        Lookup::Ready(found)
    }

    /// The sibling nodes: the children of the parent, without the node
    /// itself. Where a page is needed that is not in memory and not known
    /// to be unavailable, that page is reported missing and nothing changes.
    /// Otherwise the parent and those of its children that are found are
    /// cached.
    pub fn get_siblings(
        &self,
        nodes: &mut NodeArray,
        manager: &ResourceManager,
        unavailable: &HashSet<usize>,
    ) -> (r: Lookup<Vec<Arc<Node>>>)
        ensures
            nodes_view(r) == resolved_siblings(
                old(nodes)@,
                manager.layout(),
                manager.pages(),
                unavailable@,
                *self,
            ),
            old(nodes)@.submap_of(final(nodes)@),
            resolve_alike(final(nodes)@, old(nodes)@, manager.layout(), manager.pages()),
            match r {
                Lookup::Missing(_) => final(nodes)@ == old(nodes)@,
                Lookup::Ready(_) => forall|index: usize|
                    final(nodes)@.contains_key(index) <==> old(nodes)@.contains_key(index) || (
                    parent_resolution(old(nodes)@, manager.layout(), manager.pages(), *self)
                        matches Lookup::Ready(Some(parent)) && (self.parent_index == Some(index)
                        || (parent.children@.contains(index) && resolution(
                        old(nodes)@,
                        manager.layout(),
                        manager.pages(),
                        index,
                    ) matches Lookup::Ready(Some(_))))),
            },
    {
        broadcast use vstd::std_specs::hash::group_hash_axioms;

        let ghost layout = manager.layout();
        let ghost pages = manager.pages();
        let parent_index = match self.parent_index {
            None => {
                let none: Vec<Arc<Node>> = Vec::new();
                assert(nodes_of(none@) =~= Seq::empty());
                return Lookup::Ready(none);
            },
            Some(parent_index) => parent_index,
        };
        match nodes.peek(manager, &parent_index) {
            Lookup::Missing(page) => {
                if unavailable.contains(&page) {
                    let none: Vec<Arc<Node>> = Vec::new();
                    assert(nodes_of(none@) =~= Seq::empty());
                    Lookup::Ready(none)
                } else {
                    Lookup::Missing(page)
                }
            },
            Lookup::Ready(None) => {
                let none: Vec<Arc<Node>> = Vec::new();
                assert(nodes_of(none@) =~= Seq::empty());
                Lookup::Ready(none)
            },
            Lookup::Ready(Some(parent)) => {
                match parent.get_children(nodes, manager, unavailable) {
                    Lookup::Missing(page) => Lookup::Missing(page),
                    Lookup::Ready(children) => {
                        let ghost with_children = nodes@;
                        assert(resolution(with_children, layout, pages, parent_index)
                            == resolution(old(nodes)@, layout, pages, parent_index));
                        nodes.get(manager, &parent_index);
                        proof {
                            assert(with_children.submap_of(nodes@));
                            assert forall|index: usize| #[trigger]
                                old(nodes)@.dom().contains(index) implies nodes@.dom().contains(
                                index,
                            ) && old(nodes)@[index] == nodes@[index] by {
                                assert(with_children.dom().contains(index));
                            }
                            assert forall|index: usize| #[trigger]
                                resolution(nodes@, layout, pages, index) == resolution(
                                    old(nodes)@,
                                    layout,
                                    pages,
                                    index,
                                ) by {
                                assert(resolution(with_children, layout, pages, index)
                                    == resolution(old(nodes)@, layout, pages, index));
                            }
                        }
                        Lookup::Ready(without_index(children, self.index))
                    },
                }
            },
        }
    }
}

/// No sibling of a node carries the index of the node itself.
pub proof fn lemma_siblings_exclude_self(
    cached: Map<usize, Arc<Node>>,
    layout: Option<NodePageDefinition>,
    pages: Map<usize, NodePage>,
    unavailable: Set<usize>,
    node: Node,
    k: int,
)
    requires
        resolved_siblings(cached, layout, pages, unavailable, node) matches Lookup::Ready(
            siblings,
        ) && 0 <= k < siblings.len(),
    ensures
        resolved_siblings(cached, layout, pages, unavailable, node) matches Lookup::Ready(
            siblings,
        ) && siblings[k].index != node.index,
{
    let keep = |sibling: Node| sibling.index != node.index;
    match parent_resolution(cached, layout, pages, node) {
        Lookup::Ready(Some(parent)) => {
            match resolved_children(cached, layout, pages, unavailable, parent.children@) {
                Lookup::Ready(children) => {
                    children.lemma_filter_pred(keep, k);
                },
                Lookup::Missing(_) => {},
            }
        },
        _ => {},
    }
}

/// Every listed child that resolves is among the children: if `children[k]`
/// resolves to a node, the resolved children hold that node.
pub proof fn lemma_resolved_child_is_listed(
    cached: Map<usize, Arc<Node>>,
    layout: Option<NodePageDefinition>,
    pages: Map<usize, NodePage>,
    unavailable: Set<usize>,
    children: Seq<usize>,
    k: int,
    node: Node,
)
    requires
        0 <= k < children.len(),
        resolution(cached, layout, pages, children[k]) == Lookup::Ready(Some(node)),
        resolved_children(cached, layout, pages, unavailable, children) is Ready,
    ensures
        resolved_children(cached, layout, pages, unavailable, children) matches Lookup::Ready(
            found,
        ) && found.contains(node),
    decreases children.len(),
{
    let rest = resolved_children(cached, layout, pages, unavailable, children.drop_last());
    let found = resolved_children(cached, layout, pages, unavailable, children)->Ready_0;
    if k == children.len() - 1 {
        let before = rest->Ready_0;
        assert(found == before.push(node));
        assert(found[found.len() - 1] == node);
    } else {
        assert(children.drop_last()[k] == children[k]);
        lemma_resolved_child_is_listed(
            cached,
            layout,
            pages,
            unavailable,
            children.drop_last(),
            k,
            node,
        );
        let before = rest->Ready_0;
        let at = choose|at: int| 0 <= at < before.len() && before[at] == node;
        assert(found[at] == node);
    }
}

/// A node that is not the root is among the children of its parent: where
/// the node `index` resolves, its parent resolves, and the parent lists
/// `index`, the children of the parent hold the node.
pub proof fn lemma_node_is_child_of_its_parent(
    cached: Map<usize, Arc<Node>>,
    layout: Option<NodePageDefinition>,
    pages: Map<usize, NodePage>,
    unavailable: Set<usize>,
    index: usize,
    node: Node,
    parent: Node,
)
    requires
        resolution(cached, layout, pages, index) == Lookup::Ready(Some(node)),
        parent_resolution(cached, layout, pages, node) == Lookup::Ready(Some(parent)),
        parent.children@.contains(index),
        resolved_children(cached, layout, pages, unavailable, parent.children@) is Ready,
    ensures
        resolved_children(cached, layout, pages, unavailable, parent.children@) matches Lookup::Ready(
            found,
        ) && found.contains(node),
{
    let k = choose|k: int| 0 <= k < parent.children@.len() && parent.children@[k] == index;
    lemma_resolved_child_is_listed(cached, layout, pages, unavailable, parent.children@, k, node);
}

} // verus!
