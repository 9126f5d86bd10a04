use std::collections::HashSet;
use std::sync::Arc;

use i3s::accessor::{Accessor, Lookup};
use i3s::cache::NodePageStore;
use i3s::crs::SpatialReference;
use i3s::defn::{SceneDefinition, Store};
use i3s::err::I3SError;
use i3s::node::{
    get_node_index_in_node_page, get_node_page_index, Node, NodeArray, NodePage,
    NodePageDefinition,
};
use i3s::obb::OrientedBoundingBox;
use i3s::options::{I3SFormat, LODSelectionMetric, LayerType, Profile};
use i3s::resource::{resource_manager_factory, ResourceManager};
use i3s::SceneLayer;

fn paged_scene(node_pages: Option<NodePageDefinition>) -> SceneDefinition {
    SceneDefinition {
        id: 0,
        name: "paged".to_string(),
        spatial_reference: SpatialReference {
            wkid: 4326,
            latest_wkid: None,
            vcs_wkid: None,
            latest_vcs_wkid: None,
        },
        layer_type: LayerType::IntegratedMesh,
        store: Store {
            id: "0".to_string(),
            profile: Profile::MeshPyramids,
            version: "1.8".to_string(),
            resource_pattern: vec![],
            root_node: None,
            extent: vec![],
            index_crs: String::new(),
            vertex_crs: String::new(),
            normal_reference_frame: None,
            lod_type: "MeshPyramid".to_string(),
            default_geometry_schema: None,
            lod_model: String::new(),
        },
        version: None,
        capabilities: None,
        href: None,
        height_model: None,
        alias: None,
        description: None,
        copyright_text: None,
        z_factor: None,
        elevation: None,
        fields: None,
        attribute_storage: None,
        statistics: None,
        node_pages,
        material_definitions: None,
        texture_set_definitions: None,
        geometry_definitions: None,
        full_extent: None,
    }
}

fn paged_layout(nodes_per_page: usize) -> Option<NodePageDefinition> {
    Some(NodePageDefinition {
        nodes_per_page,
        lod_selection_metric: LODSelectionMetric::DensityThreshold,
        root_index: 0,
    })
}

fn paged_node(index: usize, parent: Option<usize>, children: Vec<usize>) -> Arc<Node> {
    Arc::new(Node {
        index,
        obb: OrientedBoundingBox {
            center: vec![1, 2, 3],
            half_size: vec![4, 5, 6],
            quaternion: vec![0, 0, 0, 1],
        },
        parent_index: parent,
        children,
        lod_threshold: Some(42),
        mesh: None,
    })
}

fn family_page() -> NodePage {
    NodePage {
        nodes: vec![
            paged_node(0, None, vec![1, 2, 3, 9]),
            paged_node(1, Some(0), vec![]),
            paged_node(2, Some(0), vec![]),
            paged_node(3, Some(0), vec![]),
        ],
        index: Some(0),
    }
}

fn family() -> ResourceManager {
    let mut manager =
        resource_manager_factory(I3SFormat::SLPK, "family.slpk", paged_scene(paged_layout(4)));
    manager.insert_node_page(0, family_page());
    manager
}

fn indices(nodes: &[Arc<Node>]) -> Vec<usize> {
    nodes.iter().map(|node| node.index).collect()
}

#[test]
fn page_index_and_offset_address_the_node() {
    for nodes_per_page in [1usize, 2, 7, 64, 1000] {
        for node_index in [0usize, 1, 6, 7, 63, 64, 65, 999, 1000, 123_456, usize::MAX] {
            let page = get_node_page_index(&node_index, &nodes_per_page);
            let offset = get_node_index_in_node_page(&node_index, &nodes_per_page);
            assert!(offset < nodes_per_page);
            assert_eq!(page * nodes_per_page + offset, node_index);
        }
    }
}

#[test]
fn page_index_and_offset_values() {
    assert_eq!(get_node_page_index(&130, &64), 2);
    assert_eq!(get_node_index_in_node_page(&130, &64), 2);
    assert_eq!(get_node_page_index(&63, &64), 0);
    assert_eq!(get_node_index_in_node_page(&63, &64), 63);
    assert_eq!(get_node_page_index(&64, &64), 1);
    assert_eq!(get_node_index_in_node_page(&64, &64), 0);
}

#[test]
fn store_keeps_the_first_page() {
    let mut store = NodePageStore::new();
    assert_eq!(store.get_page(&3), Lookup::Missing(3));
    let first = store.insert_page(3, family_page());
    assert_eq!(first.nodes.len(), 4);
    let second = store.insert_page(3, NodePage { nodes: vec![], index: None });
    assert!(Arc::ptr_eq(&first, &second));
    match store.get_page(&3) {
        Lookup::Ready(page) => assert!(Arc::ptr_eq(&page, &first)),
        Lookup::Missing(_) => panic!("the page is in the store"),
    }
    assert_eq!(store.get_page(&4), Lookup::Missing(4));
}

#[test]
fn get_node_reports_the_missing_page() {
    let manager =
        resource_manager_factory(I3SFormat::SLPK, "empty.slpk", paged_scene(paged_layout(64)));
    assert_eq!(manager.get_node(&130), Ok(Lookup::Missing(2)));
    assert_eq!(manager.get_node(&0), Ok(Lookup::Missing(0)));
}

#[test]
fn get_node_past_the_end_of_the_page() {
    let manager = family();
    assert_eq!(
        manager.get_node(&3).map(|found| match found {
            Lookup::Ready(node) => node.index,
            Lookup::Missing(_) => usize::MAX,
        }),
        Ok(3)
    );
    let mut manager =
        resource_manager_factory(I3SFormat::REST, "http://host", paged_scene(paged_layout(8)));
    manager.insert_node_page(0, family_page());
    assert_eq!(
        manager.get_node(&6),
        Err(I3SError::InvalidRequest(
            "Index 6 is greater than 4 nodes in the node page".to_string()
        ))
    );
}

#[test]
fn get_node_without_layout_or_with_empty_pages() {
    let manager = resource_manager_factory(I3SFormat::SLPK, "bare.slpk", paged_scene(None));
    assert_eq!(
        manager.get_node(&0),
        Err(I3SError::InvalidRequest(
            "NodePages definition not found in scene definition.".to_string()
        ))
    );
    let manager =
        resource_manager_factory(I3SFormat::SLPK, "zero.slpk", paged_scene(paged_layout(0)));
    assert_eq!(
        manager.get_node(&0),
        Err(I3SError::InvalidRequest("Nodes per page must be greater than zero.".to_string()))
    );
}

#[test]
fn resolving_twice_gives_the_same_node_and_asks_for_the_page_once() {
    let mut manager =
        resource_manager_factory(I3SFormat::SLPK, "family.slpk", paged_scene(paged_layout(4)));
    let mut nodes = NodeArray::new();
    let mut requests = 0;
    let first = loop {
        match nodes.get(&manager, &2) {
            Lookup::Ready(found) => break found.expect("node 2 exists"),
            Lookup::Missing(page) => {
                requests += 1;
                assert_eq!(page, 0);
                manager.insert_node_page(page, family_page());
            }
        }
    };
    assert_eq!(requests, 1);
    assert_eq!(nodes.len(), 1);
    let second = match nodes.get(&manager, &2) {
        Lookup::Ready(Some(node)) => node,
        _ => panic!("node 2 is cached"),
    };
    assert_eq!(first, second);
    assert!(Arc::ptr_eq(&first, &second));
    assert_eq!(nodes.len(), 1);
    let other = resource_manager_factory(I3SFormat::SLPK, "o.slpk", paged_scene(paged_layout(4)));
    match nodes.get(&other, &2) {
        Lookup::Ready(Some(node)) => assert!(Arc::ptr_eq(&node, &first)),
        _ => panic!("a cached node needs no page"),
    }
}

#[test]
fn absent_node_is_not_cached() {
    let manager = family();
    let mut nodes = NodeArray::new();
    assert_eq!(nodes.get(&manager, &9), Lookup::Missing(2));
    assert!(nodes.is_empty());
    let mut manager =
        resource_manager_factory(I3SFormat::SLPK, "f.slpk", paged_scene(paged_layout(16)));
    manager.insert_node_page(0, family_page());
    assert_eq!(nodes.get(&manager, &9), Lookup::Ready(None));
    assert_eq!(nodes.len(), 0);
    assert!(nodes.is_empty());
}

#[test]
fn root_of_a_scene() {
    let layer = SceneLayer::new(family());
    match layer.root() {
        Lookup::Ready(Some(root)) => {
            assert_eq!(root.index, 0);
            assert!(root.is_root());
            assert!(!root.is_leaf());
            assert_eq!(root.lod_threshold, Some(42));
        }
        _ => panic!("the root is in page 0"),
    }
    let mut nodes = layer.nodes();
    assert!(nodes.is_empty());
    match nodes.root(&layer.manager) {
        Lookup::Ready(Some(root)) => assert_eq!(root.children, vec![1, 2, 3, 9]),
        _ => panic!("the root is in page 0"),
    }
    assert_eq!(nodes.len(), 1);
}

#[test]
fn parent_children_and_siblings() {
    let manager = family();
    let mut nodes = NodeArray::new();
    let mut unavailable = HashSet::new();
    let root = match nodes.get(&manager, &0) {
        Lookup::Ready(Some(node)) => node,
        _ => panic!("the root is in page 0"),
    };
    assert_eq!(root.get_parent(&mut nodes, &manager), Lookup::Ready(None));
    assert_eq!(root.get_siblings(&mut nodes, &manager, &unavailable), Lookup::Ready(vec![]));
    assert_eq!(root.get_children(&mut nodes, &manager, &unavailable), Lookup::Missing(2));
    unavailable.insert(2);
    let children = match root.get_children(&mut nodes, &manager, &unavailable) {
        Lookup::Ready(children) => children,
        Lookup::Missing(_) => panic!("page 2 is known to be unavailable"),
    };
    assert_eq!(indices(&children), vec![1, 2, 3]);
    let node = Arc::clone(&children[1]);
    assert!(node.is_leaf());
    assert!(!node.is_root());
    let parent = match node.get_parent(&mut nodes, &manager) {
        Lookup::Ready(Some(parent)) => parent,
        _ => panic!("node 2 has a parent"),
    };
    assert!(Arc::ptr_eq(&parent, &root));
    let siblings = match node.get_siblings(&mut nodes, &manager, &unavailable) {
        Lookup::Ready(siblings) => siblings,
        Lookup::Missing(_) => panic!("page 2 is known to be unavailable"),
    };
    assert_eq!(indices(&siblings), vec![1, 3]);
    assert!(siblings.iter().all(|sibling| sibling.index != node.index));
    let again = match parent.get_children(&mut nodes, &manager, &unavailable) {
        Lookup::Ready(children) => children,
        Lookup::Missing(_) => panic!("page 2 is known to be unavailable"),
    };
    assert!(again.iter().any(|child| Arc::ptr_eq(child, &node)));
    assert_eq!(nodes.len(), 4);
}

#[test]
fn siblings_wait_for_the_page_of_the_parent() {
    let manager =
        resource_manager_factory(I3SFormat::SLPK, "family.slpk", paged_scene(paged_layout(4)));
    let mut nodes = NodeArray::new();
    let orphan = paged_node(5, Some(0), vec![]);
    let mut unavailable = HashSet::new();
    assert_eq!(orphan.get_parent(&mut nodes, &manager), Lookup::Missing(0));
    assert_eq!(orphan.get_siblings(&mut nodes, &manager, &unavailable), Lookup::Missing(0));
    unavailable.insert(0);
    assert_eq!(orphan.get_siblings(&mut nodes, &manager, &unavailable), Lookup::Ready(vec![]));
}

#[test]
fn iterator_goes_through_the_indices() {
    let mut manager =
        resource_manager_factory(I3SFormat::SLPK, "family.slpk", paged_scene(paged_layout(8)));
    let mut nodes = NodeArray::new();
    let mut iter = nodes.iter();
    assert_eq!(iter.next(&mut nodes, &manager), Lookup::Missing(0));
    assert_eq!(iter.current_index, 0);
    manager.insert_node_page(0, family_page());
    let mut seen = Vec::new();
    loop {
        match iter.next(&mut nodes, &manager) {
            Lookup::Ready(Some(node)) => seen.push(node.index),
            Lookup::Ready(None) => break,
            Lookup::Missing(page) => panic!("page {} is in memory", page),
        }
    }
    assert_eq!(seen, vec![0, 1, 2, 3]);
    assert_eq!(iter.current_index, 0);
    assert_eq!(nodes.len(), 4);
    match iter.next(&mut nodes, &manager) {
        Lookup::Ready(Some(node)) => assert_eq!(node.index, 0),
        _ => panic!("the iteration starts over"),
    }
}

#[test]
fn page_length() {
    let page = family_page();
    assert_eq!(page.len(), 4);
    assert!(!page.is_empty());
    assert!(NodePage { nodes: vec![], index: None }.is_empty());
}
