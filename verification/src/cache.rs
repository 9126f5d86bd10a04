//! The page cache: a concurrent map from page index to page.

use vstd::prelude::*;
use std::sync::Arc;
use dashmap::DashMap;
use crate::accessor::{share, Lookup};
use crate::err::{ErrorView, I3SError};
use crate::node::{
    get_node_index_in_node_page, get_node_page_index, page_index_of, page_offset_of, Node,
    NodePage, NodePageDefinition,
};
use crate::text::{append_decimal, decimal};

verus! {

/// `dashmap::DashMap`: a concurrent hash map.
#[verifier::external_type_specification]
#[verifier::external_body]
#[verifier::reject_recursive_types(K)]
#[verifier::reject_recursive_types(V)]
#[verifier::reject_recursive_types(S)]
pub struct ExDashMap<K, V, S>(DashMap<K, V, S>);

/// The entries of a page cache.
pub uninterp spec fn cached_pages(cache: DashMap<usize, Arc<NodePage>>) -> Map<usize, NodePage>;

/// `DashMap::new`: a map without entries.
#[verifier::external_body]
fn cache_new() -> (cache: DashMap<usize, Arc<NodePage>>)
    ensures
        cached_pages(cache) =~= Map::empty(),
{
    DashMap::new()
}

/// `DashMap::get`: a handle to the page stored under `key`, if there is one.
/// The map is left as it was.
#[verifier::external_body]
fn cache_get(cache: &DashMap<usize, Arc<NodePage>>, key: usize) -> (found: Option<Arc<NodePage>>)
    ensures
        found is Some == cached_pages(*cache).contains_key(key),
        found matches Some(page) ==> *page == cached_pages(*cache)[key],
{
    match cache.get(&key) {
        Some(entry) => Some(Arc::clone(entry.value())),
        None => None,
    }
}

/// `DashMap::insert`: stores `page` under `key`, in place of what was stored
/// there, and leaves every other entry as it was.
#[verifier::external_body]
fn cache_insert(cache: &mut DashMap<usize, Arc<NodePage>>, key: usize, page: Arc<NodePage>)
    ensures
        cached_pages(*final(cache)) == cached_pages(*old(cache)).insert(key, *page),
{
    cache.insert(key, page);
}

/// The detail of the error for a node whose offset lies past the end of its
/// page.
pub open spec fn out_of_range_detail(offset: nat, len: nat) -> Seq<char> {
    "Index "@ + decimal(offset) + " is greater than "@ + decimal(len)
        + " nodes in the node page"@
}

/// What looking up the node `index` comes to, given the page layout of the
/// scene and the pages in memory. Without a layout, or with a page size of
/// zero, no node can be addressed. Otherwise the node lives in page
/// `index / nodes_per_page` at offset `index % nodes_per_page`: if that page
/// is not in memory it is missing; if the offset lies past the end of the
/// page there is no such node; else the node is the one at that offset.
pub open spec fn node_lookup(
    layout: Option<NodePageDefinition>,
    pages: Map<usize, NodePage>,
    index: usize,
) -> Result<Lookup<Node>, ErrorView> {
    match layout {
        None => Err(
            ErrorView::InvalidRequest("NodePages definition not found in scene definition."@),
        ),
        Some(layout) => if layout.nodes_per_page == 0 {
            Err(ErrorView::InvalidRequest("Nodes per page must be greater than zero."@))
        } else {
            let page = page_index_of(index as int, layout.nodes_per_page as int) as usize;
            let offset = page_offset_of(index as int, layout.nodes_per_page as int);
            if !pages.contains_key(page) {
                Ok(Lookup::Missing(page))
            } else if offset >= pages[page].nodes@.len() {
                Err(
                    ErrorView::InvalidRequest(
                        out_of_range_detail(offset as nat, pages[page].nodes@.len()),
                    ),
                )
            } else {
                Ok(Lookup::Ready(*pages[page].nodes@[offset]))
            }
        },
    }
}

/// The outcome of a node lookup, as contracts speak of it.
pub open spec fn node_lookup_view(r: Result<Lookup<Arc<Node>>, I3SError>) -> Result<
    Lookup<Node>,
    ErrorView,
> {
    match r {
        Ok(Lookup::Ready(node)) => Ok(Lookup::Ready(*node)),
        Ok(Lookup::Missing(page)) => Ok(Lookup::Missing(page)),
        Err(e) => Err(e@),
    }
}

fn out_of_range(offset: usize, len: usize) -> (e: I3SError)
    ensures
        e@ == ErrorView::InvalidRequest(out_of_range_detail(offset as nat, len as nat)),
{
    let mut detail = String::from_str("Index ");
    append_decimal(&mut detail, offset);
    detail.append(" is greater than ");
    append_decimal(&mut detail, len);
    detail.append(" nodes in the node page");
    I3SError::InvalidRequest(detail)
}

/// The node page store: every page that has been loaded, by page index.
/// A page, once stored, is neither replaced nor removed.
pub struct NodePageStore {
    cache: DashMap<usize, Arc<NodePage>>,
}

impl NodePageStore {
    /// The pages in the store.
    pub closed spec fn pages(&self) -> Map<usize, NodePage> {
        cached_pages(self.cache)
    }

    /// A store without pages.
    pub fn new() -> (store: Self)
        ensures
            store.pages() == Map::<usize, NodePage>::empty(),
    {
        NodePageStore { cache: cache_new() }
    }

    /// The page stored under `index`, or that it is missing.
    pub fn get_page(&self, index: &usize) -> (r: Lookup<Arc<NodePage>>)
        ensures
            match r {
                Lookup::Ready(page) => self.pages().contains_key(*index) && *page
                    == self.pages()[*index],
                Lookup::Missing(missing) => !self.pages().contains_key(*index) && missing
                    == *index,
            },
    {
        match cache_get(&self.cache, *index) {
            Some(page) => Lookup::Ready(page),
            None => Lookup::Missing(*index),
        }
    }

    /// Stores `page` under `index` unless a page is stored there already,
    /// and returns the page that the store then holds under `index`.
    pub fn insert_page(&mut self, index: usize, page: NodePage) -> (stored: Arc<NodePage>)
        ensures
            final(self).pages() == if old(self).pages().contains_key(index) {
                old(self).pages()
            } else {
                old(self).pages().insert(index, page)
            },
            final(self).pages().contains_key(index),
            *stored == final(self).pages()[index],
    {
        match cache_get(&self.cache, index) {
            Some(present) => present,
            None => {
                let stored = Arc::new(page);
                cache_insert(&mut self.cache, index, share(&stored));
                stored
            },
        }
    }

    /// Looks the node `index` up in the pages in memory.
    pub fn get_node(&self, layout: &Option<NodePageDefinition>, index: &usize) -> (r: Result<
        Lookup<Arc<Node>>,
        I3SError,
    >)
        ensures
            node_lookup_view(r) == node_lookup(*layout, self.pages(), *index),
    {
        match layout {
            None => Err(
                I3SError::invalid_request("NodePages definition not found in scene definition."),
            ),
            Some(layout) => {
                let nodes_per_page = layout.nodes_per_page;
                if nodes_per_page == 0 {
                    return Err(
                        I3SError::invalid_request("Nodes per page must be greater than zero."),
                    );
                }
                let page_index = get_node_page_index(index, &nodes_per_page);
                let offset = get_node_index_in_node_page(index, &nodes_per_page);
                match self.get_page(&page_index) {
                    Lookup::Missing(missing) => Ok(Lookup::Missing(missing)),
                    Lookup::Ready(page) => {
                        let len = page.nodes.len();
                        if offset >= len {
                            Err(out_of_range(offset, len))
                        } else {
                            Ok(Lookup::Ready(share(&page.nodes[offset])))
                        }
                    },
                }
            },
        }
    }
}

} // verus!
