//! The service backend: a scene server reached over HTTP.

use vstd::prelude::*;
use std::sync::Arc;
use crate::accessor::{Accessor, FetchRequest, Lookup};
use crate::cache::{node_lookup, node_lookup_view, NodePageStore};
use crate::defn::SceneDefinition;
use crate::err::{ErrorView, I3SError};
use crate::node::{Node, NodePage, NodePageDefinition};
use crate::options::Compression;
use crate::text::{append_decimal, decimal, ends_with, trim_end_matches, trimmed_end};
use crate::uri::{
    check_geometry, check_texture, gated, geometry_refusal, texture_refusal, uri_view, UriBuilder,
};

verus! {

/// The base address of a service: an address that ends in the service
/// suffix is taken as it is; to any other the suffix is appended, after the
/// slashes that the address ends with are removed.
pub open spec fn normalized_base_url(base_url: Seq<char>) -> Seq<char> {
    if "SceneServer"@.is_suffix_of(base_url) {
        base_url
    } else {
        trimmed_end(base_url, '/') + "/SceneServer"@
    }
}

/// The path of a node page on a service.
pub open spec fn service_page_path(index: usize) -> Seq<char> {
    "layers/0/nodepages/"@ + decimal(index as nat)
}

/// The path of a geometry buffer on a service: the last segment is 0 for the
/// uncompressed buffer and 1 for the compressed one.
pub open spec fn service_geometry_path(resource: usize, compression: Compression) -> Seq<char> {
    "layers/0/nodes/"@ + decimal(resource as nat) + match compression {
        Compression::Uncompressed => "/geometries/0"@,
        Compression::Compressed => "/geometries/1"@,
    }
}

/// The path of a texture on a service, whatever its format and compression.
pub open spec fn service_texture_path(resource: usize, name: Seq<char>) -> Seq<char> {
    "layers/0/nodes/"@ + decimal(resource as nat) + "/textures/"@ + name
}

/// Whether an HTTP status code reports success.
pub open spec fn is_success(status: u16) -> bool {
    200 <= status < 300
}

/// The detail of the error for a response that reports no success: the
/// path, then the status code.
pub open spec fn status_detail(path: Seq<char>, status: u16) -> Seq<char> {
    path + ": status "@ + decimal(status as nat)
}

/// A scene service: its base address, the scene definition read from it, and
/// the node pages read from it so far.
pub struct Service {
    pub base_url: String,
    pub store: NodePageStore,
    pub scene_definition: SceneDefinition,
}

impl Service {
    /// Puts a base address into the form that paths are appended to.
    pub fn normalize_base_url(base_url: &str) -> (normalized: String)
        ensures
            normalized@ == normalized_base_url(base_url@),
    {
        if ends_with(base_url, "SceneServer") {
            String::from_str(base_url)
        } else {
            String::from_str(trim_end_matches(base_url, '/')).concat("/SceneServer")
        }
    }

    /// The resource that holds the scene definition.
    pub fn scene_definition_request() -> (request: FetchRequest)
        ensures
            request.path@ == "layers/0"@,
            !request.gzip,
    {
        FetchRequest { path: String::from_str("layers/0"), gzip: false }
    }

    /// The service at `base_url`, whose scene definition has been read: no
    /// page is in memory yet.
    pub fn connect(base_url: &str, scene_definition: SceneDefinition) -> (service: Self)
        ensures
            service.base_url@ == normalized_base_url(base_url@),
            service.scene_definition == scene_definition,
            service.store.pages() == Map::<usize, NodePage>::empty(),
    {
        Service {
            base_url: Self::normalize_base_url(base_url),
            store: NodePageStore::new(),
            scene_definition,
        }
    }

    /// What a response amounts to: the body where the status reports
    /// success, else a not-found error that names the path and the status.
    pub fn response(path: &str, status: u16, body: Vec<u8>) -> (r: Result<Vec<u8>, I3SError>)
        ensures
            is_success(status) ==> r == Ok::<Vec<u8>, I3SError>(body),
            !is_success(status) ==> (r matches Err(e) && e@ == ErrorView::ResourceNotFound(
                status_detail(path@, status),
            )),
    {
        if 200 <= status && status < 300 {
            Ok(body)
        } else {
            let mut detail = String::from_str(path);
            detail.append(": status ");
            append_decimal(&mut detail, status as usize);
            Err(I3SError::ResourceNotFound(detail))
        }
    }

    /// The resource that holds the node page `index`.
    pub fn node_page_request(index: &usize) -> (request: FetchRequest)
        ensures
            request.path@ == service_page_path(*index),
            !request.gzip,
    {
        let mut path = String::from_str("layers/0/nodepages/");
        append_decimal(&mut path, *index);
        FetchRequest { path, gzip: false }
    }

    /// The node page `index`, if it is in memory.
    pub fn get_node_page(&self, index: &usize) -> (r: Lookup<Arc<NodePage>>)
        ensures
            match r {
                Lookup::Ready(page) => self.store.pages().contains_key(*index) && *page
                    == self.store.pages()[*index],
                Lookup::Missing(missing) => !self.store.pages().contains_key(*index) && missing
                    == *index,
            },
    {
        self.store.get_page(index)
    }

    /// Takes a page that has been read into memory, unless the page is
    /// there already, and returns the page then held under `index`.
    pub fn insert_node_page(&mut self, index: usize, page: NodePage) -> (stored: Arc<NodePage>)
        ensures
            final(self).scene_definition == old(self).scene_definition,
            final(self).base_url == old(self).base_url,
            final(self).store.pages() == if old(self).store.pages().contains_key(index) {
                old(self).store.pages()
            } else {
                old(self).store.pages().insert(index, page)
            },
            final(self).store.pages().contains_key(index),
            *stored == final(self).store.pages()[index],
    {
        self.store.insert_page(index, page)
    }

    fn texture_uri(&self, resource: &usize, name: &str) -> (path: String)
        ensures
            path@ == service_texture_path(*resource, name@),
    {
        let mut path = String::from_str("layers/0/nodes/");
        append_decimal(&mut path, *resource);
        path.append("/textures/");
        path.append(name);
        path
    }

    fn uncompressed_texture_uri(&self, resource: &usize, name: &str) -> (r: Result<
        String,
        I3SError,
    >)
        ensures
            uri_view(r) == gated(
                texture_refusal(self.scene_definition, Compression::Uncompressed),
                service_texture_path(*resource, name@),
            ),
    {
        match check_texture(&self.scene_definition, &Compression::Uncompressed) {
            Err(e) => Err(e),
            Ok(_) => Ok(self.texture_uri(resource, name)),
        }
    }

    fn compressed_texture_uri(&self, resource: &usize, name: &str) -> (r: Result<String, I3SError>)
        ensures
            uri_view(r) == gated(
                texture_refusal(self.scene_definition, Compression::Compressed),
                service_texture_path(*resource, name@),
            ),
    {
        match check_texture(&self.scene_definition, &Compression::Compressed) {
            Err(e) => Err(e),
            Ok(_) => Ok(self.texture_uri(resource, name)),
        }
    }

    fn uncompressed_geometry_uri(&self, resource: &usize) -> (path: String)
        ensures
            path@ == service_geometry_path(*resource, Compression::Uncompressed),
    {
        let mut path = String::from_str("layers/0/nodes/");
        append_decimal(&mut path, *resource);
        path.append("/geometries/0");
        path
    }

    fn compressed_geometry_uri(&self, resource: &usize) -> (r: Result<String, I3SError>)
        ensures
            uri_view(r) == gated(
                geometry_refusal(self.scene_definition, Compression::Compressed),
                service_geometry_path(*resource, Compression::Compressed),
            ),
    {
        match check_geometry(&self.scene_definition, &Compression::Compressed) {
            Err(e) => Err(e),
            Ok(_) => {
                let mut path = String::from_str("layers/0/nodes/");
                append_decimal(&mut path, *resource);
                path.append("/geometries/1");
                Ok(path)
            },
        }
    }
}

impl Accessor for Service {
    open spec fn layout(&self) -> Option<NodePageDefinition> {
        self.scene_definition.node_pages
    }

    open spec fn pages(&self) -> Map<usize, NodePage> {
        self.store.pages()
    }

    /// A service resource is addressed by the base address, a slash, and
    /// the path.
    open spec fn address(&self, path: Seq<char>) -> Seq<char> {
        self.base_url@ + "/"@ + path
    }

    fn get_node(&self, index: &usize) -> (r: Result<Lookup<Arc<Node>>, I3SError>) {
        self.store.get_node(&self.scene_definition.node_pages, index)
    }

    fn locate(&self, path: &str) -> (address: String) {
        let mut address = self.base_url.clone();
        address.append("/");
        address.append(path);
        address
    }
}

impl UriBuilder for Service {
    open spec fn scene(&self) -> SceneDefinition {
        self.scene_definition
    }

    open spec fn geometry_path(&self, resource: usize, compression: Compression) -> Seq<char> {
        service_geometry_path(resource, compression)
    }

    open spec fn texture_path(
        &self,
        resource: usize,
        name: Seq<char>,
        fmt: Seq<char>,
        compression: Compression,
    ) -> Seq<char> {
        service_texture_path(resource, name)
    }

    fn create_geometry_uri(&self, resource: &usize, compression: &Compression) -> (r: Result<
        String,
        I3SError,
    >) {
        match compression {
            Compression::Compressed => self.compressed_geometry_uri(resource),
            Compression::Uncompressed => Ok(self.uncompressed_geometry_uri(resource)),
        }
    }

    fn create_texture_uri(
        &self,
        resource: &usize,
        name: &str,
        fmt: &str,
        compression: &Compression,
    ) -> (r: Result<String, I3SError>) {
        match compression {
            Compression::Compressed => self.compressed_texture_uri(resource, name),
            Compression::Uncompressed => self.uncompressed_texture_uri(resource, name),
        }
    }
}

} // verus!
