//! Mesh references of a node.

use vstd::prelude::*;
use std::sync::Arc;

verus! {

/// The material of a mesh: `resource` names the folder its textures are
/// stored in, `definition` its entry in the texture set definitions of the
/// scene. Once decoded, the texture bytes are kept in the slot `cache`.
#[derive(Debug, Clone, PartialEq, Eq)]
pub struct MeshMaterial {
    pub definition: usize,
    pub resource: usize,
    pub texel_count_hint: Option<usize>,
    pub cache: Option<Arc<Vec<u8>>>,
}

impl MeshMaterial {
    /// A material of which nothing is decoded yet.
    pub fn new(definition: usize, resource: usize, texel_count_hint: Option<usize>) -> (r: Self)
        ensures
            r.definition == definition,
            r.resource == resource,
            r.texel_count_hint == texel_count_hint,
            r.decoded() is None,
    {
        MeshMaterial { definition, resource, texel_count_hint, cache: None }
    }

    /// The decoded bytes, once there are any.
    pub open spec fn decoded(self) -> Option<Seq<u8>> {
        match self.cache {
            Some(bytes) => Some(bytes@),
            None => None,
        }
    }

    /// Whether the texture has been decoded.
    pub fn is_decoded(&self) -> (r: bool)
        ensures
            r == self.decoded() is Some,
    {
        self.cache.is_some()
    }
}

/// The geometry of a mesh: `resource` names the folder its buffers are
/// stored in, `definition` its entry in the geometry definitions of the
/// scene. Once decoded, the geometry bytes are kept in the slot `cache`.
#[derive(Debug, Clone, PartialEq, Eq)]
pub struct MeshGeometry {
    pub definition: usize,
    pub resource: usize,
    pub vertex_count: usize,
    pub feature_count: Option<usize>,
    pub cache: Option<Arc<Vec<u8>>>,
}

impl MeshGeometry {
    /// A geometry of which nothing is decoded yet.
    pub fn new(
        definition: usize,
        resource: usize,
        vertex_count: usize,
        feature_count: Option<usize>,
    ) -> (r: Self)
        ensures
            r.definition == definition,
            r.resource == resource,
            r.vertex_count == vertex_count,
            r.feature_count == feature_count,
            r.decoded() is None,
    {
        MeshGeometry { definition, resource, vertex_count, feature_count, cache: None }
    }

    /// The decoded bytes, once there are any.
    pub open spec fn decoded(self) -> Option<Seq<u8>> {
        match self.cache {
            Some(bytes) => Some(bytes@),
            None => None,
        }
    }

    /// Whether the geometry has been decoded.
    pub fn is_decoded(&self) -> (r: bool)
        ensures
            r == self.decoded() is Some,
    {
        self.cache.is_some()
    }
}

/// The attributes of a mesh.
#[derive(Debug, Clone, PartialEq, Eq)]
pub struct MeshAttribute {
    pub resource: i32,
}

/// The mesh of a node.
#[derive(Debug, Clone, PartialEq, Eq)]
pub struct Mesh {
    pub geometry: MeshGeometry,
    pub material: Option<MeshMaterial>,
    pub attribute: Option<MeshAttribute>,
}

} // verus!
