//! The closed sets of options that scene metadata chooses from.

use vstd::prelude::*;
use crate::err::{ErrorView, I3SError};
use crate::text::{ends_with, same_text, starts_with};

verus! {

/// Which variant of a payload is asked for.
#[derive(Debug, Clone, Copy, PartialEq, Eq, Structural)]
pub enum Compression {
    Uncompressed,
    Compressed,
}

/// Layer types.
#[derive(Debug, Clone, Copy, PartialEq, Eq, Structural)]
pub enum LayerType {
    IntegratedMesh,
    DDDObject,
    Point,
    Building,
}

/// Geometry bindings.
#[derive(Debug, Clone, Copy, PartialEq, Eq, Structural)]
pub enum GeometryBinding {
    PerVertex,
    PerUVRegion,
}

/// Data types of attribute values.
#[derive(Debug, Clone, Copy, PartialEq, Eq, Structural)]
pub enum DataType {
    Float32,
    Float64,
    Int16,
    Int32,
    Int64,
    UInt8,
    UInt16,
    UInt32,
    UInt64,
    String,
    OID32,
}

impl DataType {
    /// The data type that `name` spells, if any.
    pub open spec fn named(name: Seq<char>) -> Option<DataType> {
        if name == "Float32"@ {
            Some(DataType::Float32)
        } else if name == "Float64"@ {
            Some(DataType::Float64)
        } else if name == "Int16"@ {
            Some(DataType::Int16)
        } else if name == "Int32"@ {
            Some(DataType::Int32)
        } else if name == "Int64"@ {
            Some(DataType::Int64)
        } else if name == "UInt8"@ {
            Some(DataType::UInt8)
        } else if name == "UInt16"@ {
            Some(DataType::UInt16)
        } else if name == "UInt32"@ {
            Some(DataType::UInt32)
        } else if name == "UInt64"@ {
            Some(DataType::UInt64)
        } else if name == "String"@ {
            Some(DataType::String)
        } else if name == "OID32"@ {
            Some(DataType::OID32)
        } else {
            None
        }
    }

    /// Reads a data type from its name.
    pub fn from_str(data_type: &str) -> (r: Option<Self>)
        ensures
            r == Self::named(data_type@),
    {
        if same_text(data_type, "Float32") {
            Some(DataType::Float32)
        } else if same_text(data_type, "Float64") {
            Some(DataType::Float64)
        } else if same_text(data_type, "Int16") {
            Some(DataType::Int16)
        } else if same_text(data_type, "Int32") {
            Some(DataType::Int32)
        } else if same_text(data_type, "Int64") {
            Some(DataType::Int64)
        } else if same_text(data_type, "UInt8") {
            Some(DataType::UInt8)
        } else if same_text(data_type, "UInt16") {
            Some(DataType::UInt16)
        } else if same_text(data_type, "UInt32") {
            Some(DataType::UInt32)
        } else if same_text(data_type, "UInt64") {
            Some(DataType::UInt64)
        } else if same_text(data_type, "String") {
            Some(DataType::String)
        } else if same_text(data_type, "OID32") {
            Some(DataType::OID32)
        } else {
            None
        }
    }
}

/// How the values of an attribute are laid out.
#[derive(Debug, Clone, Copy, PartialEq, Eq, Structural)]
pub enum AttributeOrdering {
    AttributeByteCounts,
    AttributeValues,
}

/// Field types.
#[derive(Debug, Clone, Copy, PartialEq, Eq, Structural)]
pub enum FieldType {
    Double,
    Integer,
    OID,
    String,
}

/// Texture formats.
#[derive(Debug, Clone, Copy, PartialEq, Eq, Structural)]
pub enum ImageFormat {
    PNG,
    JPG,
    DDS,
    KTX2,
    KtcEtc2,
}

impl ImageFormat {
    /// The lower-case name under which the format stands in paths.
    pub open spec fn name(self) -> Seq<char> {
        match self {
            ImageFormat::PNG => "png"@,
            ImageFormat::JPG => "jpg"@,
            ImageFormat::DDS => "dds"@,
            ImageFormat::KTX2 => "ktx2"@,
            ImageFormat::KtcEtc2 => "ktcetc2"@,
        }
    }

    /// The name of the format as paths spell it.
    pub fn as_ref(&self) -> (r: &'static str)
        ensures
            r@ == self.name(),
    {
        match self {
            ImageFormat::PNG => "png",
            ImageFormat::JPG => "jpg",
            ImageFormat::DDS => "dds",
            ImageFormat::KTX2 => "ktx2",
            ImageFormat::KtcEtc2 => "ktcetc2",
        }
    }
}

/// Metrics by which a level of detail is selected.
#[derive(Debug, Clone, Copy, PartialEq, Eq, Structural)]
pub enum LODSelectionMetric {
    MaxScreenThresholdSQ,
    DensityThreshold,
}

/// Resource patterns.
#[derive(Debug, Clone, Copy, PartialEq, Eq, Structural)]
pub enum ResourcePattern {
    NodeIndexDocument,
    SharedResource,
    FeatureData,
    Geometry,
    Texture,
    Attributes,
}

/// Reference frames of normals.
#[derive(Debug, Clone, Copy, PartialEq, Eq, Structural)]
pub enum NormalReferenceFrame {
    EastNorthUp,
    EarthCentered,
    VertexReferenceFrame,
}

/// Kinds of level of detail.
#[derive(Debug, Clone, Copy, PartialEq, Eq, Structural)]
pub enum LODType {
    MeshPyramid,
    AutoThinning,
    Clustering,
    Generalizing,
}

/// Geometry types.
#[derive(Debug, Clone, Copy, PartialEq, Eq, Structural)]
pub enum GeometryType {
    Triangles,
}

/// Topologies.
#[derive(Debug, Clone, Copy, PartialEq, Eq, Structural)]
pub enum Topology {
    PerAttributeArray,
    Indexed,
}

/// The content kind that a scene declares.
#[derive(Debug, Clone, Copy, PartialEq, Eq, Structural)]
pub enum Profile {
    MeshPyramids,
    Points,
    PointClouds,
    Building,
}

/// Where a scene is stored: in an archive file or behind a service.
#[derive(Debug, Clone, Copy, PartialEq, Eq, Hash, Structural)]
pub enum I3SFormat {
    SLPK,
    REST,
}

impl I3SFormat {
    /// The backend that an address selects, by its spelling alone: one that
    /// ends in the archive extension is an archive, any other that begins
    /// with the web scheme is a service.
    pub open spec fn of_address(uri: Seq<char>) -> Option<I3SFormat> {
        if ".slpk"@.is_suffix_of(uri) {
            Some(I3SFormat::SLPK)
        } else if "http"@.is_prefix_of(uri) {
            Some(I3SFormat::REST)
        } else {
            None
        }
    }

    /// Selects the backend for an address, or rejects the address.
    pub fn from_uri(uri: &str) -> (r: Result<Self, I3SError>)
        ensures
            match Self::of_address(uri@) {
                Some(format) => r == Ok::<I3SFormat, I3SError>(format),
                None => r matches Err(e) && e@ == ErrorView::InvalidUri(uri@),
            },
    {
        if ends_with(uri, ".slpk") {
            Ok(I3SFormat::SLPK)
        } else if starts_with(uri, "http") {
            Ok(I3SFormat::REST)
        } else {
            Err(I3SError::InvalidUri(String::from_str(uri)))
        }
    }
}

/// What a client may do with a layer.
#[derive(Debug, Clone, Copy, PartialEq, Eq, Structural)]
pub enum Capabilities {
    View,
    Edit,
    Query,
}

} // verus!
