//! The archive backend: a scene layer package.

use vstd::prelude::*;
use std::sync::Arc;
use crate::accessor::{fetched_view, unpacked, Accessor, FetchRequest, Lookup};
use crate::cache::{node_lookup, node_lookup_view, NodePageStore};
use crate::defn::SceneDefinition;
use crate::err::{ErrorView, I3SError};
use crate::node::{Node, NodePage, NodePageDefinition};
use crate::options::Compression;
use crate::text::{append_decimal, decimal};
use crate::uri::{
    check_geometry, check_texture, gated, geometry_refusal, texture_refusal, uri_view, UriBuilder,
};

verus! {

/// The path of a node page in an archive.
pub open spec fn archive_page_path(index: usize) -> Seq<char> {
    "nodepages/"@ + decimal(index as nat) + ".json.gz"@
}

/// The path of a geometry buffer in an archive: slot 0 is the uncompressed
/// buffer, slot 1 the compressed one.
pub open spec fn archive_geometry_path(resource: usize, compression: Compression) -> Seq<char> {
    "nodes/"@ + decimal(resource as nat) + match compression {
        Compression::Uncompressed => "/geometries/0.bin"@,
        Compression::Compressed => "/geometries/1.bin"@,
    }
}

/// The path of a texture in an archive. A compressed texture is stored as
/// gzip data, which the suffix says.
pub open spec fn archive_texture_path(
    resource: usize,
    name: Seq<char>,
    fmt: Seq<char>,
    compression: Compression,
) -> Seq<char> {
    "nodes/"@ + decimal(resource as nat) + "/textures/"@ + name + ".bin."@ + fmt + match compression {
        Compression::Uncompressed => Seq::<char>::empty(),
        Compression::Compressed => ".gz"@,
    }
}

/// A scene layer package: the scene definition read from the archive, and
/// the node pages read from it so far.
pub struct SceneLayerPackage {
    pub store: NodePageStore,
    pub scene_definition: SceneDefinition,
}

impl SceneLayerPackage {
    /// The entry that holds the scene definition, as gzip data.
    pub fn scene_definition_request() -> (request: FetchRequest)
        ensures
            request.path@ == "3dSceneLayer.json.gz"@,
            request.gzip,
    {
        FetchRequest { path: String::from_str("3dSceneLayer.json.gz"), gzip: true }
    }

    /// The text of the scene definition, given what reading its entry
    /// returned: a missing entry stays the failure it was reported as, an
    /// entry that is not gzip data is a decompression error.
    pub fn decode_scene_definition(entry: Result<Vec<u8>, I3SError>) -> (r: Result<
        Vec<u8>,
        I3SError,
    >)
        ensures
            fetched_view(r) == unpacked("3dSceneLayer.json.gz"@, true, fetched_view(entry)),
            entry matches Err(e) ==> r == Err::<Vec<u8>, I3SError>(e),
    {
        let request = Self::scene_definition_request();
        request.unpack(entry)
    }

    /// Opens the package of a scene whose definition has been read: no page
    /// is in memory yet.
    pub fn open(scene_definition: SceneDefinition) -> (package: Self)
        ensures
            package.scene_definition == scene_definition,
            package.store.pages() == Map::<usize, NodePage>::empty(),
    {
        SceneLayerPackage { store: NodePageStore::new(), scene_definition }
    }

    /// The entry that holds the node page `index`, as gzip data.
    pub fn node_page_request(index: &usize) -> (request: FetchRequest)
        ensures
            request.path@ == archive_page_path(*index),
            request.gzip,
    {
        let mut path = String::from_str("nodepages/");
        append_decimal(&mut path, *index);
        path.append(".json.gz");
        FetchRequest { path, gzip: true }
    }

    /// The node page `index`, if it is in memory.
    pub fn get_node_page(&self, index: &usize) -> (r: Lookup<Arc<NodePage>>)
        ensures
            match r {
                Lookup::Ready(page) => self.store.pages().contains_key(*index) && *page
                    == self.store.pages()[*index],
                Lookup::Missing(missing) => !self.store.pages().contains_key(*index) && missing
                    == *index,
            },
    {
        self.store.get_page(index)
    }

    /// Takes a page that has been read into memory, unless the page is
    /// there already, and returns the page then held under `index`.
    pub fn insert_node_page(&mut self, index: usize, page: NodePage) -> (stored: Arc<NodePage>)
        ensures
            final(self).scene_definition == old(self).scene_definition,
            final(self).store.pages() == if old(self).store.pages().contains_key(index) {
                old(self).store.pages()
            } else {
                old(self).store.pages().insert(index, page)
            },
            final(self).store.pages().contains_key(index),
            *stored == final(self).store.pages()[index],
    {
        self.store.insert_page(index, page)
    }

    fn compressed_texture_uri(&self, resource: &usize, name: &str, fmt: &str) -> (r: Result<
        String,
        I3SError,
    >)
        ensures
            uri_view(r) == gated(
                texture_refusal(self.scene_definition, Compression::Compressed),
                archive_texture_path(*resource, name@, fmt@, Compression::Compressed),
            ),
    {
        match check_texture(&self.scene_definition, &Compression::Compressed) {
            Err(e) => Err(e),
            Ok(_) => {
                let mut path = Self::texture_stem(resource, name, fmt);
                path.append(".gz");
                Ok(path)
            },
        }
    }

    fn uncompressed_texture_uri(&self, resource: &usize, name: &str, fmt: &str) -> (r: Result<
        String,
        I3SError,
    >)
        ensures
            uri_view(r) == gated(
                texture_refusal(self.scene_definition, Compression::Uncompressed),
                archive_texture_path(*resource, name@, fmt@, Compression::Uncompressed),
            ),
    {
        match check_texture(&self.scene_definition, &Compression::Uncompressed) {
            Err(e) => Err(e),
            Ok(_) => {
                let path = Self::texture_stem(resource, name, fmt);
                assert(path@ =~= archive_texture_path(
                    *resource,
                    name@,
                    fmt@,
                    Compression::Uncompressed,
                ));
                Ok(path)
            },
        }
    }

    fn texture_stem(resource: &usize, name: &str, fmt: &str) -> (path: String)
        ensures
            path@ == "nodes/"@ + decimal(*resource as nat) + "/textures/"@ + name@ + ".bin."@
                + fmt@,
    {
        let mut path = String::from_str("nodes/");
        append_decimal(&mut path, *resource);
        path.append("/textures/");
        path.append(name);
        path.append(".bin.");
        path.append(fmt);
        path
    }

    fn compressed_geometry_uri(&self, resource: &usize) -> (r: Result<String, I3SError>)
        ensures
            uri_view(r) == gated(
                geometry_refusal(self.scene_definition, Compression::Compressed),
                archive_geometry_path(*resource, Compression::Compressed),
            ),
    {
        match check_geometry(&self.scene_definition, &Compression::Compressed) {
            Err(e) => Err(e),
            Ok(_) => {
                let mut path = String::from_str("nodes/");
                append_decimal(&mut path, *resource);
                path.append("/geometries/1.bin");
                Ok(path)
            },
        }
    }

    fn uncompressed_geometry_uri(&self, resource: &usize) -> (r: Result<String, I3SError>)
        ensures
            uri_view(r) == Ok::<Seq<char>, ErrorView>(
                archive_geometry_path(*resource, Compression::Uncompressed),
            ),
    {
        let mut path = String::from_str("nodes/");
        append_decimal(&mut path, *resource);
        path.append("/geometries/0.bin");
        Ok(path)
    }
}

impl Accessor for SceneLayerPackage {
    open spec fn layout(&self) -> Option<NodePageDefinition> {
        self.scene_definition.node_pages
    }

    open spec fn pages(&self) -> Map<usize, NodePage> {
        self.store.pages()
    }

    /// An archive entry is named by the path itself.
    open spec fn address(&self, path: Seq<char>) -> Seq<char> {
        path
    }

    fn get_node(&self, index: &usize) -> (r: Result<Lookup<Arc<Node>>, I3SError>) {
        self.store.get_node(&self.scene_definition.node_pages, index)
    }

    fn locate(&self, path: &str) -> (address: String) {
        String::from_str(path)
    }
}

impl UriBuilder for SceneLayerPackage {
    open spec fn scene(&self) -> SceneDefinition {
        self.scene_definition
    }

    open spec fn geometry_path(&self, resource: usize, compression: Compression) -> Seq<char> {
        archive_geometry_path(resource, compression)
    }

    open spec fn texture_path(
        &self,
        resource: usize,
        name: Seq<char>,
        fmt: Seq<char>,
        compression: Compression,
    ) -> Seq<char> {
        archive_texture_path(resource, name, fmt, compression)
    }

    fn create_geometry_uri(&self, resource: &usize, compression: &Compression) -> (r: Result<
        String,
        I3SError,
    >) {
        match compression {
            Compression::Compressed => self.compressed_geometry_uri(resource),
            Compression::Uncompressed => self.uncompressed_geometry_uri(resource),
        }
    }

    fn create_texture_uri(
        &self,
        resource: &usize,
        name: &str,
        fmt: &str,
        compression: &Compression,
    ) -> (r: Result<String, I3SError>) {
        match compression {
            Compression::Compressed => self.compressed_texture_uri(resource, name, fmt),
            Compression::Uncompressed => self.uncompressed_texture_uri(resource, name, fmt),
        }
    }
}

} // verus!
