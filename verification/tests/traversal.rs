use std::collections::{HashMap, HashSet};
use std::sync::Arc;

use i3s::accessor::{Accessor, Lookup};
use i3s::crs::SpatialReference;
use i3s::defn::{SceneDefinition, Store};
use i3s::node::{Node, NodeArray, NodePage, NodePageDefinition};
use i3s::obb::OrientedBoundingBox;
use i3s::options::{I3SFormat, LODSelectionMetric, LayerType, Profile};
use i3s::resource::{resource_manager_factory, ResourceManager};
use i3s::traverse::Traversal;

fn walk_scene(node_pages: Option<NodePageDefinition>) -> SceneDefinition {
    SceneDefinition {
        id: 0,
        name: "walk".to_string(),
        spatial_reference: SpatialReference {
            wkid: 3857,
            latest_wkid: None,
            vcs_wkid: None,
            latest_vcs_wkid: None,
        },
        layer_type: LayerType::IntegratedMesh,
        store: Store {
            id: "0".to_string(),
            profile: Profile::MeshPyramids,
            version: "1.8".to_string(),
            resource_pattern: vec![],
            root_node: None,
            extent: vec![],
            index_crs: String::new(),
            vertex_crs: String::new(),
            normal_reference_frame: None,
            lod_type: "MeshPyramid".to_string(),
            default_geometry_schema: None,
            lod_model: String::new(),
        },
        version: None,
        capabilities: None,
        href: None,
        height_model: None,
        alias: None,
        description: None,
        copyright_text: None,
        z_factor: None,
        elevation: None,
        fields: None,
        attribute_storage: None,
        statistics: None,
        node_pages,
        material_definitions: None,
        texture_set_definitions: None,
        geometry_definitions: None,
        full_extent: None,
    }
}

fn walk_layout(nodes_per_page: usize, root_index: usize) -> Option<NodePageDefinition> {
    Some(NodePageDefinition {
        nodes_per_page,
        lod_selection_metric: LODSelectionMetric::MaxScreenThresholdSQ,
        root_index,
    })
}

fn walk_node(index: usize, parent: Option<usize>, children: Vec<usize>) -> Arc<Node> {
    Arc::new(Node {
        index,
        obb: OrientedBoundingBox { center: vec![], half_size: vec![], quaternion: vec![] },
        parent_index: parent,
        children,
        lod_threshold: None,
        mesh: None,
    })
}

/// A page of `len` nodes that starts at index `first`; `links` gives the
/// parent and the children of the nodes that have any.
fn walk_page(
    first: usize,
    len: usize,
    links: &[(usize, Option<usize>, Vec<usize>)],
) -> NodePage {
    let mut nodes = Vec::new();
    for offset in 0..len {
        let index = first + offset;
        let mut node = walk_node(index, None, vec![]);
        for (linked, parent, children) in links {
            if *linked == index {
                node = walk_node(index, *parent, children.clone());
            }
        }
        nodes.push(node);
    }
    NodePage { nodes, index: None }
}

/// Three levels over three pages of 64 nodes: 0 lists 1, 2 and 70; 1 lists
/// 3 and 130; 2 lists 4.
fn three_levels() -> HashMap<usize, NodePage> {
    let mut pages = HashMap::new();
    pages.insert(
        0,
        walk_page(
            0,
            64,
            &[
                (0, None, vec![1, 2, 70]),
                (1, Some(0), vec![3, 130]),
                (2, Some(0), vec![4]),
                (3, Some(1), vec![]),
                (4, Some(2), vec![]),
            ],
        ),
    );
    pages.insert(1, walk_page(64, 64, &[(70, Some(0), vec![])]));
    pages.insert(2, walk_page(128, 3, &[(130, Some(1), vec![])]));
    pages
}

/// Runs a walk to its end, loading pages from `source` as they are asked
/// for. Returns the visits, whether the walk finished, and the pages
/// fetched.
fn drive(
    nodes: &mut NodeArray,
    manager: &mut ResourceManager,
    source: &HashMap<usize, NodePage>,
    stop_at: Option<usize>,
) -> (Vec<(usize, usize)>, bool, Vec<usize>) {
    let mut visits = Vec::new();
    let mut fetched = Vec::new();
    let mut walk = nodes.walk(manager);
    loop {
        let mut visitor = |node: &Arc<Node>, level: &usize| {
            visits.push((node.index, *level));
            Some(node.index) != stop_at
        };
        match nodes.traverse(manager, &mut walk, &mut visitor) {
            Lookup::Ready(finished) => {
                assert_eq!(walk.is_finished(), finished);
                assert_eq!(walk.is_stopped(), !finished);
                return (visits, finished, fetched);
            }
            Lookup::Missing(page) => {
                fetched.push(page);
                match source.get(&page) {
                    Some(found) => {
                        manager.insert_node_page(page, found.clone());
                    }
                    None => walk.mark_unavailable(page),
                }
            }
        }
    }
}

#[test]
fn traverse_three_levels_across_pages() {
    let source = three_levels();
    let mut manager =
        resource_manager_factory(I3SFormat::SLPK, "scene.slpk", walk_scene(walk_layout(64, 0)));
    let mut nodes = NodeArray::new();
    let (visits, finished, fetched) = drive(&mut nodes, &mut manager, &source, None);
    assert!(finished);
    assert_eq!(visits, vec![(0, 0), (70, 1), (2, 1), (4, 2), (1, 1), (130, 2), (3, 2)]);
    assert_eq!(fetched, vec![0, 1, 2]);
    assert_eq!(nodes.len(), 7);
    for (index, level) in &visits {
        let expected = match index {
            0 => 0,
            1 | 2 | 70 => 1,
            _ => 2,
        };
        assert_eq!(*level, expected);
    }
    let distinct: HashSet<usize> = visits.iter().map(|visit| visit.0).collect();
    assert_eq!(distinct.len(), visits.len());
}

#[test]
fn second_walk_fetches_nothing() {
    let source = three_levels();
    let mut manager =
        resource_manager_factory(I3SFormat::REST, "http://host", walk_scene(walk_layout(64, 0)));
    let mut nodes = NodeArray::new();
    let (first, _, fetched) = drive(&mut nodes, &mut manager, &source, None);
    assert_eq!(fetched.len(), 3);
    let (second, finished, fetched) = drive(&mut nodes, &mut manager, &source, None);
    assert!(finished);
    assert!(fetched.is_empty());
    assert_eq!(first, second);
    assert_eq!(nodes.len(), 7);
}

#[test]
fn visitor_stops_the_walk() {
    let source = three_levels();
    let mut manager =
        resource_manager_factory(I3SFormat::SLPK, "scene.slpk", walk_scene(walk_layout(64, 0)));
    let mut nodes = NodeArray::new();
    let (visits, finished, _) = drive(&mut nodes, &mut manager, &source, Some(2));
    assert!(!finished);
    assert_eq!(visits, vec![(0, 0), (70, 1), (2, 1)]);
}

#[test]
fn stopped_walk_stays_stopped() {
    let source = three_levels();
    let mut manager =
        resource_manager_factory(I3SFormat::SLPK, "scene.slpk", walk_scene(walk_layout(64, 0)));
    manager.insert_node_page(0, source[&0].clone());
    let mut nodes = NodeArray::new();
    let mut walk = Traversal::new(0);
    let mut calls = 0;
    let mut refuse = |_: &Arc<Node>, _: &usize| {
        calls += 1;
        false
    };
    assert_eq!(nodes.traverse(&manager, &mut walk, &mut refuse), Lookup::Ready(false));
    assert_eq!(nodes.traverse(&manager, &mut walk, &mut refuse), Lookup::Ready(false));
    assert!(walk.is_stopped());
    assert!(!walk.is_finished());
    assert_eq!(calls, 1);
}

#[test]
fn unavailable_page_prunes_the_branch() {
    let mut source = three_levels();
    source.remove(&2);
    let mut manager =
        resource_manager_factory(I3SFormat::SLPK, "scene.slpk", walk_scene(walk_layout(64, 0)));
    let mut nodes = NodeArray::new();
    let (visits, finished, fetched) = drive(&mut nodes, &mut manager, &source, None);
    assert!(finished);
    assert_eq!(visits, vec![(0, 0), (70, 1), (2, 1), (4, 2), (1, 1), (3, 2)]);
    assert_eq!(fetched, vec![0, 1, 2]);
}

#[test]
fn walk_waits_for_the_missing_page() {
    let manager =
        resource_manager_factory(I3SFormat::SLPK, "scene.slpk", walk_scene(walk_layout(64, 65)));
    let mut nodes = NodeArray::new();
    let mut walk = Traversal::new(nodes.root_index(&manager));
    let mut never = |_: &Arc<Node>, _: &usize| panic!("nothing to visit yet");
    assert_eq!(nodes.traverse(&manager, &mut walk, &mut never), Lookup::Missing(1));
    assert_eq!(nodes.traverse(&manager, &mut walk, &mut never), Lookup::Missing(1));
    assert!(!walk.is_finished());
    assert!(!walk.is_stopped());
}

#[test]
fn shared_child_and_cycle_are_visited_once() {
    let mut source = HashMap::new();
    source.insert(
        0,
        walk_page(
            0,
            4,
            &[
                (0, None, vec![1, 2]),
                (1, Some(0), vec![3]),
                (2, Some(0), vec![3, 0]),
                (3, Some(1), vec![1]),
            ],
        ),
    );
    let mut manager =
        resource_manager_factory(I3SFormat::SLPK, "scene.slpk", walk_scene(walk_layout(4, 0)));
    let mut nodes = NodeArray::new();
    let (visits, finished, _) = drive(&mut nodes, &mut manager, &source, None);
    assert!(finished);
    assert_eq!(visits, vec![(0, 0), (2, 1), (3, 2), (1, 3)]);
}

#[test]
fn child_past_the_end_of_its_page_is_dropped() {
    let mut source = HashMap::new();
    source.insert(0, walk_page(0, 2, &[(0, None, vec![1, 3])]));
    let mut manager =
        resource_manager_factory(I3SFormat::SLPK, "scene.slpk", walk_scene(walk_layout(4, 0)));
    let mut nodes = NodeArray::new();
    let (visits, finished, fetched) = drive(&mut nodes, &mut manager, &source, None);
    assert!(finished);
    assert_eq!(visits, vec![(0, 0), (1, 1)]);
    assert_eq!(fetched, vec![0]);
}

#[test]
fn scene_without_layout_has_nothing_to_walk() {
    let mut manager = resource_manager_factory(I3SFormat::SLPK, "scene.slpk", walk_scene(None));
    let mut nodes = NodeArray::new();
    assert_eq!(nodes.root_index(&manager), 0);
    let (visits, finished, fetched) = drive(&mut nodes, &mut manager, &HashMap::new(), None);
    assert!(finished);
    assert!(visits.is_empty());
    assert!(fetched.is_empty());
    assert!(nodes.is_empty());
}

#[test]
fn walk_starts_at_the_declared_root() {
    let mut source = HashMap::new();
    source.insert(1, walk_page(4, 4, &[(5, None, vec![6]), (6, Some(5), vec![])]));
    let mut manager =
        resource_manager_factory(I3SFormat::SLPK, "scene.slpk", walk_scene(walk_layout(4, 5)));
    let mut nodes = NodeArray::new();
    assert_eq!(nodes.root_index(&manager), 5);
    let (visits, finished, fetched) = drive(&mut nodes, &mut manager, &source, None);
    assert!(finished);
    assert_eq!(visits, vec![(5, 0), (6, 1)]);
    assert_eq!(fetched, vec![1]);
    assert!(matches!(manager.get_node_page(&1), Lookup::Ready(_)));
    assert!(matches!(manager.get_node(&5), Ok(Lookup::Ready(_))));
    assert_eq!(manager.get_node_page(&0), Lookup::Missing(0));
}
