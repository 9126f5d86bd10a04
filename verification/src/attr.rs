//! Attribute metadata.

use vstd::prelude::*;
use crate::text::same_text;

verus! {

/// Whether `name` is one of the geometry attributes that a compressed buffer
/// may carry.
pub open spec fn supported_geometry_attribute(name: Seq<char>) -> bool {
    ||| name == "position"@
    ||| name == "normal"@
    ||| name == "uv0"@
    ||| name == "color"@
    ||| name == "uv-region"@
    ||| name == "feature-index"@
}

/// Tests `supported_geometry_attribute`.
pub fn is_supported_geometry_attribute(name: &str) -> (r: bool)
    ensures
        r == supported_geometry_attribute(name@),
{
    same_text(name, "position") || same_text(name, "normal") || same_text(name, "uv0")
        || same_text(name, "color") || same_text(name, "uv-region") || same_text(
        name,
        "feature-index",
    )
}

/// Default geometry schema header.
#[derive(Debug, Clone, PartialEq, Eq)]
pub struct DefaultGeometrySchemaHeader {
    pub property: String,
    pub dtype: Option<String>,
}

/// Attribute metadata.
#[derive(Debug, Clone, PartialEq, Eq)]
pub struct AttributeMetadata {
    pub dtype: Option<String>,
    pub values_per_element: Option<u32>,
    pub byte_offset: Option<u32>,
    pub encoding: Option<String>,
    pub component: Option<u32>,
    pub binding: Option<String>,
}

/// Normal attribute metadata.
#[derive(Debug, Clone, PartialEq, Eq)]
pub struct NormalAttributeMetadata {
    pub dtype: String,
    pub component: u32,
    pub encoding: String,
    pub binding: String,
}

impl Default for NormalAttributeMetadata {
    fn default() -> (r: Self)
        ensures
            r.dtype@ == "Float32"@,
            r.component == 3,
            r.encoding@ == "none"@,
            r.binding@ == "per-vertex"@,
    {
        Self {
            dtype: String::from_str("Float32"),
            component: 3,
            encoding: String::from_str("none"),
            binding: String::from_str("per-vertex"),
        }
    }
}

/// UV0 attribute metadata.
#[derive(Debug, Clone, PartialEq, Eq)]
pub struct UV0AttributeMetadata {
    pub dtype: String,
    pub component: u32,
    pub encoding: String,
    pub binding: String,
}

impl Default for UV0AttributeMetadata {
    fn default() -> (r: Self)
        ensures
            r.dtype@ == "Float32"@,
            r.component == 2,
            r.encoding@ == "none"@,
            r.binding@ == "per-vertex"@,
    {
        Self {
            dtype: String::from_str("Float32"),
            component: 2,
            encoding: String::from_str("none"),
            binding: String::from_str("per-vertex"),
        }
    }
}

/// Color attribute metadata.
#[derive(Debug, Clone, PartialEq, Eq)]
pub struct ColorAttributeMetadata {
    pub dtype: String,
    pub component: u32,
    pub encoding: String,
    pub binding: String,
}

impl Default for ColorAttributeMetadata {
    fn default() -> (r: Self)
        ensures
            r.dtype@ == "UInt8"@,
            r.component == 3,
            r.encoding@ == "none"@,
            r.binding@ == "per-vertex"@,
    {
        Self {
            dtype: String::from_str("UInt8"),
            component: 3,
            encoding: String::from_str("none"),
            binding: String::from_str("per-vertex"),
        }
    }
}

/// UV region attribute metadata.
#[derive(Debug, Clone, PartialEq, Eq)]
pub struct UVRegionAttributeMetadata {
    pub dtype: String,
    pub component: u32,
    pub encoding: String,
    pub binding: String,
}

impl Default for UVRegionAttributeMetadata {
    fn default() -> (r: Self)
        ensures
            r.dtype@ == "UInt16"@,
            r.component == 4,
            r.encoding@ == "none"@,
            r.binding@ == "per-vertex"@,
    {
        Self {
            dtype: String::from_str("UInt16"),
            component: 4,
            encoding: String::from_str("none"),
            binding: String::from_str("per-vertex"),
        }
    }
}

/// Face range attribute metadata.
#[derive(Debug, Clone, PartialEq, Eq)]
pub struct FaceRangeAttributeMetadata {
    pub dtype: String,
    pub component: u32,
    pub encoding: String,
    pub binding: String,
}

impl Default for FaceRangeAttributeMetadata {
    fn default() -> (r: Self)
        ensures
            r.dtype@ == "UInt32"@,
            r.component == 1,
            r.encoding@ == "none"@,
            r.binding@ == "per-vertex"@,
    {
        Self {
            dtype: String::from_str("UInt32"),
            component: 1,
            encoding: String::from_str("none"),
            binding: String::from_str("per-vertex"),
        }
    }
}

/// The attributes that a compressed geometry buffer carries, and how they
/// are encoded.
#[derive(Debug, Clone, PartialEq, Eq)]
pub struct CompressedAttributes {
    pub encoding: String,
    pub attributes: Vec<String>,
}

impl CompressedAttributes {
    /// Valid means: encoded as `draco`, and every attribute is a supported
    /// geometry attribute.
    pub open spec fn valid(self) -> bool {
        &&& self.encoding@ == "draco"@
        &&& forall|i: int|
            0 <= i < self.attributes@.len() ==> supported_geometry_attribute(
                #[trigger] self.attributes@[i]@,
            )
    }

    /// Tests `valid`.
    pub fn validate(&self) -> (r: bool)
        ensures
            r == self.valid(),
    {
        if !same_text(self.encoding.as_str(), "draco") {
            return false;
        }
        let mut i: usize = 0;
        while i < self.attributes.len()
            invariant
                i <= self.attributes@.len(),
                forall|k: int|
                    0 <= k < i ==> supported_geometry_attribute(#[trigger] self.attributes@[k]@),
            decreases self.attributes@.len() - i,
        {
            if !is_supported_geometry_attribute(self.attributes[i].as_str()) {
                return false;
            }
            i += 1;
        }
        true
    }
}

/// Attribute storage info.
#[derive(Debug, Clone, PartialEq, Eq)]
pub struct AttributeStorageInfo {
    pub key: String,
    pub name: String,
    pub encoding: Option<String>,
    pub ordering: Option<Vec<String>>,
    pub attribute_values: Option<Vec<AttributeMetadata>>,
    pub header: Option<Vec<DefaultGeometrySchemaHeader>>,
    pub attribute_byte_countslist: Option<AttributeMetadata>,
}

/// Domain coded value.
#[derive(Debug, Clone, PartialEq, Eq)]
pub struct DomainCodedValue {
    pub name: String,
    pub code: String,
}

/// Domain.
#[derive(Debug, Clone, PartialEq, Eq)]
pub struct Domain {
    pub name: String,
    pub description: String,
    pub field_type: String,
    pub dtype: Option<String>,
    pub coded_values: Option<Vec<DomainCodedValue>>,
}

/// Attribute field.
#[derive(Debug, Clone, PartialEq, Eq)]
pub struct AttributeField {
    pub name: String,
    pub field_type: String,
    pub alias: String,
    pub domain: Option<Domain>,
}

} // verus!
