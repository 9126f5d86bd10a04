//! The scene definition: the description of a whole layer, loaded once.

use vstd::prelude::*;
use crate::attr::{AttributeField, AttributeStorageInfo};
use crate::crs::{ElevationInfo, Extent, HeightModelInfo, SpatialReference};
use crate::geom::{DefaultGeometrySchema, GeometryDefinition};
use crate::node::NodePageDefinition;
use crate::options::{Capabilities, LayerType, NormalReferenceFrame, Profile, ResourcePattern};
use crate::visual::{MaterialDefinition, TextureSetDefinition};

verus! {

/// Store. The entries of `extent` are bit patterns of real numbers.
#[derive(Debug, Clone, PartialEq, Eq)]
pub struct Store {
    pub id: String,
    pub profile: Profile,
    pub version: String,
    pub resource_pattern: Vec<ResourcePattern>,
    pub root_node: Option<String>,
    pub extent: Vec<u64>,
    pub index_crs: String,
    pub vertex_crs: String,
    pub normal_reference_frame: Option<NormalReferenceFrame>,
    pub lod_type: String,
    pub default_geometry_schema: Option<DefaultGeometrySchema>,
    pub lod_model: String,
}

/// Scene definition. `z_factor` is the bit pattern of a real number.
#[derive(Debug, Clone, PartialEq, Eq)]
pub struct SceneDefinition {
    pub id: i32,
    pub name: String,
    pub spatial_reference: SpatialReference,
    pub layer_type: LayerType,
    pub store: Store,
    pub version: Option<String>,
    pub capabilities: Option<Vec<Capabilities>>,
    pub href: Option<String>,
    pub height_model: Option<HeightModelInfo>,
    pub alias: Option<String>,
    pub description: Option<String>,
    pub copyright_text: Option<String>,
    pub z_factor: Option<u64>,
    pub elevation: Option<ElevationInfo>,
    pub fields: Option<Vec<AttributeField>>,
    pub attribute_storage: Option<Vec<AttributeStorageInfo>>,
    pub statistics: Option<Vec<serde_json::Value>>,
    pub node_pages: Option<NodePageDefinition>,
    pub material_definitions: Option<Vec<MaterialDefinition>>,
    pub texture_set_definitions: Option<Vec<TextureSetDefinition>>,
    pub geometry_definitions: Option<Vec<GeometryDefinition>>,
    pub full_extent: Option<Extent>,
}

} // verus!
