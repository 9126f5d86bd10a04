//! The resource manager: one of the two backends, behind one interface.

use vstd::prelude::*;
use std::sync::Arc;
use crate::accessor::{Accessor, FetchRequest, Lookup};
use crate::cache::{node_lookup, node_lookup_view};
use crate::defn::SceneDefinition;
use crate::err::{ErrorView, I3SError};
use crate::node::{Node, NodePage, NodePageDefinition};
use crate::options::{Compression, I3SFormat};
use crate::service::{normalized_base_url, service_page_path, Service};
use crate::slpk::{archive_page_path, SceneLayerPackage};
use crate::uri::{gated, geometry_refusal, texture_refusal, uri_view, UriBuilder};

verus! {

/// The backend of an open scene.
pub enum ResourceManager {
    Service(Service),
    SceneLayerPackage(SceneLayerPackage),
}

/// A request or an error, as contracts speak of them: the path, and whether
/// the payload is gzip data.
pub open spec fn request_view(r: Result<FetchRequest, I3SError>) -> Result<
    (Seq<char>, bool),
    ErrorView,
> {
    match r {
        Ok(request) => Ok((request.path@, request.gzip)),
        Err(e) => Err(e@),
    }
}

/// The request for a path that a scene allows, or its refusal.
pub open spec fn gated_request(path: Result<Seq<char>, ErrorView>, gzip: bool) -> Result<
    (Seq<char>, bool),
    ErrorView,
> {
    match path {
        Ok(path) => Ok((path, gzip)),
        Err(e) => Err(e),
    }
}

/// Makes the backend that a format selects, for a scene whose definition has
/// been read from the address `uri`. No page is in memory yet.
pub fn resource_manager_factory(
    fmt: I3SFormat,
    uri: &str,
    scene_definition: SceneDefinition,
) -> (manager: ResourceManager)
    ensures
        manager.definition() == scene_definition,
        manager.pages() == Map::<usize, NodePage>::empty(),
        manager.is_archive() == (fmt == I3SFormat::SLPK),
        manager matches ResourceManager::Service(service) ==> service.base_url@
            == normalized_base_url(uri@),
{
    match fmt {
        I3SFormat::REST => ResourceManager::Service(Service::connect(uri, scene_definition)),
        I3SFormat::SLPK => ResourceManager::SceneLayerPackage(
            SceneLayerPackage::open(scene_definition),
        ),
    }
}

impl ResourceManager {
    /// The scene definition of the backend.
    pub open spec fn definition(&self) -> SceneDefinition {
        match *self {
            ResourceManager::Service(service) => service.scene_definition,
            ResourceManager::SceneLayerPackage(package) => package.scene_definition,
        }
    }

    /// Whether the backend is an archive.
    pub open spec fn is_archive(&self) -> bool {
        *self is SceneLayerPackage
    }

    /// The path under which the backend stores the node page `index`.
    pub open spec fn page_path(&self, index: usize) -> Seq<char> {
        if self.is_archive() {
            archive_page_path(index)
        } else {
            service_page_path(index)
        }
    }

    /// Whether the backend stores a texture of the given variant as gzip
    /// data: an archive does so for compressed textures.
    pub open spec fn texture_is_gzip(&self, compression: Compression) -> bool {
        self.is_archive() && compression == Compression::Compressed
    }

    /// The scene definition.
    pub fn scene_definition(&self) -> (definition: &SceneDefinition)
        ensures
            *definition == self.definition(),
    {
        match self {
            ResourceManager::Service(service) => &service.scene_definition,
            ResourceManager::SceneLayerPackage(package) => &package.scene_definition,
        }
    }

    /// What to fetch for the node page `index`. An archive stores pages as
    /// gzip data, a service does not.
    pub fn node_page_request(&self, index: &usize) -> (request: FetchRequest)
        ensures
            request.path@ == self.page_path(*index),
            request.gzip == self.is_archive(),
    {
        match self {
            ResourceManager::Service(_) => Service::node_page_request(index),
            ResourceManager::SceneLayerPackage(_) => SceneLayerPackage::node_page_request(index),
        }
    }

    /// The node page `index`, if it is in memory.
    pub fn get_node_page(&self, index: &usize) -> (r: Lookup<Arc<NodePage>>)
        ensures
            match r {
                Lookup::Ready(page) => self.pages().contains_key(*index) && *page
                    == self.pages()[*index],
                Lookup::Missing(missing) => !self.pages().contains_key(*index) && missing
                    == *index,
            },
    {
        match self {
            ResourceManager::Service(service) => service.get_node_page(index),
            ResourceManager::SceneLayerPackage(package) => package.get_node_page(index),
        }
    }

    /// Takes a page that has been read into memory, unless the page is
    /// there already, and returns the page then held under `index`. Nothing
    /// else about the backend changes.
    pub fn insert_node_page(&mut self, index: usize, page: NodePage) -> (stored: Arc<NodePage>)
        ensures
            final(self).definition() == old(self).definition(),
            final(self).is_archive() == old(self).is_archive(),
            final(self).pages() == if old(self).pages().contains_key(index) {
                old(self).pages()
            } else {
                old(self).pages().insert(index, page)
            },
            final(self).pages().contains_key(index),
            *stored == final(self).pages()[index],
    {
        match self {
            ResourceManager::Service(service) => service.insert_node_page(index, page),
            ResourceManager::SceneLayerPackage(package) => package.insert_node_page(index, page),
        }
    }

    /// What to fetch for a geometry buffer, or the refusal of the scene.
    /// Geometry buffers are stored as gzip data.
    pub fn geometry_request(&self, resource: &usize, compression: &Compression) -> (r: Result<
        FetchRequest,
        I3SError,
    >)
        ensures
            request_view(r) == gated_request(
                gated(
                    geometry_refusal(self.definition(), *compression),
                    self.geometry_path(*resource, *compression),
                ),
                true,
            ),
    {
        match self.create_geometry_uri(resource, compression) {
            Ok(path) => Ok(FetchRequest { path, gzip: true }),
            Err(e) => Err(e),
        }
    }

    /// What to fetch for a texture, or the refusal of the scene.
    pub fn texture_request(
        &self,
        resource: &usize,
        name: &str,
        fmt: &str,
        compression: &Compression,
    ) -> (r: Result<FetchRequest, I3SError>)
        ensures
            request_view(r) == gated_request(
                gated(
                    texture_refusal(self.definition(), *compression),
                    self.texture_path(*resource, name@, fmt@, *compression),
                ),
                self.texture_is_gzip(*compression),
            ),
    {
        match self.create_texture_uri(resource, name, fmt, compression) {
            Ok(path) => {
                let gzip = match self {
                    ResourceManager::Service(_) => false,
                    ResourceManager::SceneLayerPackage(_) => match compression {
                        Compression::Compressed => true,
                        Compression::Uncompressed => false,
                    },
                };
                Ok(FetchRequest { path, gzip })
            },
            Err(e) => Err(e),
        }
    }
}

impl Accessor for ResourceManager {
    open spec fn layout(&self) -> Option<NodePageDefinition> {
        self.definition().node_pages
    }

    open spec fn pages(&self) -> Map<usize, NodePage> {
        match *self {
            ResourceManager::Service(service) => service.store.pages(),
            ResourceManager::SceneLayerPackage(package) => package.store.pages(),
        }
    }

    open spec fn address(&self, path: Seq<char>) -> Seq<char> {
        match *self {
            ResourceManager::Service(service) => service.address(path),
            ResourceManager::SceneLayerPackage(package) => package.address(path),
        }
    }

    fn get_node(&self, index: &usize) -> (r: Result<Lookup<Arc<Node>>, I3SError>) {
        match self {
            ResourceManager::Service(service) => service.get_node(index),
            ResourceManager::SceneLayerPackage(package) => package.get_node(index),
        }
    }

    fn locate(&self, path: &str) -> (address: String) {
        match self {
            ResourceManager::Service(service) => service.locate(path),
            ResourceManager::SceneLayerPackage(package) => package.locate(path),
        }
    }
}

impl UriBuilder for ResourceManager {
    open spec fn scene(&self) -> SceneDefinition {
        self.definition()
    }

    open spec fn geometry_path(&self, resource: usize, compression: Compression) -> Seq<char> {
        match *self {
            ResourceManager::Service(service) => service.geometry_path(resource, compression),
            ResourceManager::SceneLayerPackage(package) => package.geometry_path(
                resource,
                compression,
            ),
        }
    }

    open spec fn texture_path(
        &self,
        resource: usize,
        name: Seq<char>,
        fmt: Seq<char>,
        compression: Compression,
    ) -> Seq<char> {
        match *self {
            ResourceManager::Service(service) => service.texture_path(
                resource,
                name,
                fmt,
                compression,
            ),
            ResourceManager::SceneLayerPackage(package) => package.texture_path(
                resource,
                name,
                fmt,
                compression,
            ),
        }
    }

    fn create_texture_uri(
        &self,
        resource: &usize,
        name: &str,
        fmt: &str,
        compression: &Compression,
    ) -> (r: Result<String, I3SError>) {
        match self {
            ResourceManager::Service(service) => service.create_texture_uri(
                resource,
                name,
                fmt,
                compression,
            ),
            ResourceManager::SceneLayerPackage(package) => package.create_texture_uri(
                resource,
                name,
                fmt,
                compression,
            ),
        }
    }

    fn create_geometry_uri(&self, resource: &usize, compression: &Compression) -> (r: Result<
        String,
        I3SError,
    >) {
        match self {
            ResourceManager::Service(service) => service.create_geometry_uri(resource, compression),
            ResourceManager::SceneLayerPackage(package) => package.create_geometry_uri(
                resource,
                compression,
            ),
        }
    }
}

} // verus!
