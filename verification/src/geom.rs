//! Geometry definitions.

use vstd::prelude::*;
use crate::attr::{AttributeMetadata, CompressedAttributes};
use crate::options::{GeometryType, Topology};

verus! {

/// `serde_json::Value`: a JSON value that scene metadata carries along and
/// that this crate neither reads nor changes.
#[verifier::external_type_specification]
#[verifier::external_body]
pub struct ExJsonValue(serde_json::Value);

/// Geometry buffer.
#[derive(Debug, Clone, PartialEq, Eq)]
pub struct GeometryBuffer {
    pub compressed_attributes: Option<CompressedAttributes>,
    pub offset: Option<i32>,
    pub position: Option<AttributeMetadata>,
    pub normal: Option<AttributeMetadata>,
    pub uv0: Option<AttributeMetadata>,
    pub color: Option<AttributeMetadata>,
    pub feature_id: Option<AttributeMetadata>,
    pub face_range: Option<AttributeMetadata>,
    pub uv_region: Option<AttributeMetadata>,
}

impl GeometryBuffer {
    /// Whether the buffer declares compressed attributes.
    pub open spec fn is_compressed(self) -> bool {
        self.compressed_attributes is Some
    }
}

impl Default for GeometryBuffer {
    fn default() -> (r: Self)
        ensures
            r.compressed_attributes is None,
            r.offset is None,
            r.position is None,
            r.normal is None,
            r.uv0 is None,
            r.color is None,
            r.feature_id is None,
            r.face_range is None,
            r.uv_region is None,
    {
        Self {
            compressed_attributes: None,
            offset: None,
            position: None,
            normal: None,
            uv0: None,
            color: None,
            feature_id: None,
            face_range: None,
            uv_region: None,
        }
    }
}

/// Geometry definition.
#[derive(Debug, Clone, PartialEq, Eq)]
pub struct GeometryDefinition {
    pub geometry_buffers: Vec<GeometryBuffer>,
    pub topology: Option<String>,
}

/// The buffers of `buffers` whose compression is `compressed`, in order.
pub open spec fn buffers_where(buffers: Seq<GeometryBuffer>, compressed: bool) -> Seq<
    GeometryBuffer,
> {
    buffers.filter(|buffer: GeometryBuffer| buffer.is_compressed() == compressed)
}

impl GeometryDefinition {
    /// Whether some buffer of the definition declares compressed attributes.
    pub open spec fn declares_compressed(self) -> bool {
        exists|i: int|
            0 <= i < self.geometry_buffers@.len() && (
            #[trigger] self.geometry_buffers@[i]).is_compressed()
    }

    /// Tests `declares_compressed`.
    pub fn has_compressed(&self) -> (r: bool)
        ensures
            r == self.declares_compressed(),
    {
        let mut i: usize = 0;
        while i < self.geometry_buffers.len()
            invariant
                i <= self.geometry_buffers@.len(),
                forall|k: int|
                    0 <= k < i ==> !(#[trigger] self.geometry_buffers@[k]).is_compressed(),
            decreases self.geometry_buffers@.len() - i,
        {
            if self.geometry_buffers[i].compressed_attributes.is_some() {
                return true;
            }
            i += 1;
        }
        false
    }

    fn select(&self, compressed: bool) -> (r: Vec<&GeometryBuffer>)
        ensures
            r@.map_values(|buffer: &GeometryBuffer| *buffer) == buffers_where(
                self.geometry_buffers@,
                compressed,
            ),
    {
        let mut out: Vec<&GeometryBuffer> = Vec::new();
        let mut i: usize = 0;
        assert(self.geometry_buffers@.subrange(0, 0) =~= Seq::empty());
        assert(out@.map_values(|buffer: &GeometryBuffer| *buffer) =~= buffers_where(
            self.geometry_buffers@.subrange(0, 0),
            compressed,
        )) by {
            reveal(Seq::filter);
        }
        while i < self.geometry_buffers.len()
            invariant
                i <= self.geometry_buffers@.len(),
                out@.map_values(|buffer: &GeometryBuffer| *buffer) == buffers_where(
                    self.geometry_buffers@.subrange(0, i as int),
                    compressed,
                ),
            decreases self.geometry_buffers@.len() - i,
        {
            let buffer = &self.geometry_buffers[i];
            let ghost before = out@;
            proof {
                reveal(Seq::filter);
                let next = self.geometry_buffers@.subrange(0, i + 1);
                assert(next.drop_last() =~= self.geometry_buffers@.subrange(0, i as int));
                assert(next.last() == *buffer);
            }
            if buffer.compressed_attributes.is_some() == compressed {
                out.push(buffer);
                assert(out@.map_values(|buffer: &GeometryBuffer| *buffer) =~= before.map_values(
                    |buffer: &GeometryBuffer| *buffer,
                ).push(*buffer));
            }
            i += 1;
        }
        assert(self.geometry_buffers@.subrange(0, i as int) =~= self.geometry_buffers@);
        out
    }

    /// The buffers that declare compressed attributes, in order.
    pub fn compressed_geometry_buffers(&self) -> (r: Vec<&GeometryBuffer>)
        ensures
            r@.map_values(|buffer: &GeometryBuffer| *buffer) == buffers_where(
                self.geometry_buffers@,
                true,
            ),
    {
        self.select(true)
    }

    /// The buffers that declare no compressed attributes, in order.
    pub fn uncompressed_geometry_buffers(&self) -> (r: Vec<&GeometryBuffer>)
        ensures
            r@.map_values(|buffer: &GeometryBuffer| *buffer) == buffers_where(
                self.geometry_buffers@,
                false,
            ),
    {
        self.select(false)
    }
}

/// Default geometry schema.
#[derive(Debug, Clone, PartialEq, Eq)]
pub struct DefaultGeometrySchema {
    pub topology: Topology,
    pub geometry_type: GeometryType,
    pub ordering: Vec<String>,
    pub header: Vec<serde_json::Value>,
}

/// The geometry type of a schema that names none.
pub fn default_geometry_type() -> (r: GeometryType)
    ensures
        r == GeometryType::Triangles,
{
    GeometryType::Triangles
}

} // verus!
