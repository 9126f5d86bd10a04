//! Reader core for hierarchically tiled 3D scene layers.
//!
//! A scene is a tree of nodes stored in fixed-size pages, either inside an
//! archive or behind a REST service. This crate holds the part of a reader
//! that decides: the page address arithmetic, the page and node caches, the
//! tree navigation and traversal, and the rules by which resource paths are
//! built and payloads decoded. It performs no input or output itself. Where
//! an operation needs bytes that are not in memory yet, it says which ones
//! (`Lookup::Missing`, `Decoded::Fetch`); the caller fetches them, hands them
//! back, and repeats the call.

use vstd::prelude::*;
use std::sync::Arc;

pub mod accessor;
pub mod attr;
pub mod cache;
pub mod crs;
pub mod decode;
pub mod defn;
pub mod err;
pub mod geom;
pub mod mesh;
pub mod node;
pub mod obb;
pub mod options;
pub mod resource;
pub mod service;
pub mod slpk;
pub mod text;
pub mod traverse;
pub mod uri;
pub mod visual;

use crate::accessor::{Accessor, Lookup};
use crate::decode::ResourceDecoder;
use crate::defn::SceneDefinition;
use crate::err::{ErrorView, I3SError};
use crate::node::{resolution, resolution_view, root_index_of, Node, NodeArray, NodePage};
use crate::options::I3SFormat;
use crate::resource::{resource_manager_factory, ResourceManager};
use crate::service::normalized_base_url;

verus! {

/// An open scene: its backend, with the scene definition and the pages read
/// so far.
pub struct SceneLayer {
    pub manager: ResourceManager,
}

impl SceneLayer {
    /// The scene over a backend.
    pub fn new(manager: ResourceManager) -> (layer: SceneLayer)
        ensures
            layer.manager == manager,
    {
        SceneLayer { manager }
    }

    /// The scene definition.
    pub fn definition(&self) -> (definition: &SceneDefinition)
        ensures
            *definition == self.manager.definition(),
    {
        self.manager.scene_definition()
    }

    /// The decoder for the profile that the scene declares.
    pub fn create_decoder<'a>(&'a self) -> (r: Result<ResourceDecoder<'a>, I3SError>)
        ensures
            self.manager.definition().store.profile == options::Profile::MeshPyramids ==> (
            r matches Ok(decoder) && decoder.manager() == self.manager),
            self.manager.definition().store.profile != options::Profile::MeshPyramids ==> (
            r matches Err(e) && e@ == ErrorView::InvalidRequest(decode::unsupported_profile())),
    {
        ResourceDecoder::new(&self.manager, &self.manager.scene_definition().store.profile)
    }

    /// A node graph for the scene, in which no node is cached yet.
    pub fn nodes(&self) -> (nodes: NodeArray)
        ensures
            nodes@ == Map::<usize, Arc<Node>>::empty(),
    {
        NodeArray::new()
    }

    /// The root node, looked up in the pages in memory.
    pub fn root(&self) -> (r: Lookup<Option<Arc<Node>>>)
        ensures
            resolution_view(r) == resolution(
                Map::<usize, Arc<Node>>::empty(),
                self.manager.layout(),
                self.manager.pages(),
                root_index_of(self.manager.layout()),
            ),
    {
        let mut nodes = self.nodes();
        nodes.root(&self.manager)
    }

    /// The scene at the address `uri`, whose definition has been read: an
    /// archive or a service, as the address says; an address that says
    /// neither is rejected. No page is in memory yet.
    pub fn from_uri(uri: &str, scene_definition: SceneDefinition) -> (r: Result<
        SceneLayer,
        I3SError,
    >)
        ensures
            match I3SFormat::of_address(uri@) {
                Some(format) => {
                    &&& r matches Ok(layer)
                    &&& layer.manager.definition() == scene_definition
                    &&& layer.manager.pages() == Map::<usize, NodePage>::empty()
                    &&& layer.manager.is_archive() == (format == I3SFormat::SLPK)
                    &&& layer.manager matches ResourceManager::Service(service)
                        ==> service.base_url@ == normalized_base_url(uri@)
                },
                None => r matches Err(e) && e@ == ErrorView::InvalidUri(uri@),
            },
    {
        match I3SFormat::from_uri(uri) {
            Ok(format) => Ok(SceneLayer::new(resource_manager_factory(format, uri, scene_definition))),
            Err(e) => Err(e),
        }
    }
}

} // verus!
