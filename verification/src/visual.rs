//! Materials and textures.

use vstd::prelude::*;
use crate::options::ImageFormat;
use crate::text::same_text;

verus! {

/// Material texture. `factor` is the bit pattern of a real number.
#[derive(Debug, Clone, PartialEq, Eq)]
pub struct MaterialTexture {
    pub texture_set_definition_id: i32,
    pub factor: Option<u64>,
}

/// Physically based rendering material. The factors are bit patterns of real
/// numbers.
#[derive(Debug, Clone, PartialEq, Eq)]
pub struct PBRMaterialDefinition {
    pub base_color_texture: MaterialTexture,
    pub metallic_factor: u64,
    pub base_color_factor: Option<Vec<u64>>,
}

/// Material definition. `metallic_factor` is the bit pattern of a real number.
#[derive(Debug, Clone, PartialEq, Eq)]
pub struct MaterialDefinition {
    pub double_sided: bool,
    pub pbr_metallic_roughness: Option<PBRMaterialDefinition>,
    pub metallic_factor: Option<u64>,
}

/// One format in which a texture is stored: `name` is the last segment of
/// the texture's path.
#[derive(Debug, Clone, PartialEq, Eq)]
pub struct TextureFormat {
    pub name: String,
    pub format: ImageFormat,
}

impl TextureFormat {
    /// The name that each format is stored under.
    pub open spec fn expected_name(format: ImageFormat) -> Seq<char> {
        match format {
            ImageFormat::KTX2 => "1"@,
            ImageFormat::DDS => "0_0_1"@,
            ImageFormat::KtcEtc2 => "0_0_2"@,
            _ => "0"@,
        }
    }

    /// Whether the format is a compressed texture format.
    pub fn is_compressed(&self) -> (r: bool)
        ensures
            r == (self.format == ImageFormat::DDS || self.format == ImageFormat::KTX2),
    {
        match self.format {
            ImageFormat::DDS => true,
            ImageFormat::KTX2 => true,
            _ => false,
        }
    }

    /// Whether the texture is named as its format requires.
    pub fn validate(&self) -> (r: bool)
        ensures
            r == (self.name@ == Self::expected_name(self.format)),
    {
        match self.format {
            ImageFormat::KTX2 => same_text(self.name.as_str(), "1"),
            ImageFormat::DDS => same_text(self.name.as_str(), "0_0_1"),
            ImageFormat::KtcEtc2 => same_text(self.name.as_str(), "0_0_2"),
            _ => same_text(self.name.as_str(), "0"),
        }
    }
}

/// Texture set definition: slot 0 is the uncompressed format, slot 1, where
/// there is one, the compressed format.
#[derive(Debug, Clone, PartialEq, Eq)]
pub struct TextureSetDefinition {
    pub formats: Vec<TextureFormat>,
    pub atlas: bool,
}

impl TextureSetDefinition {
    /// Whether the set declares both format slots.
    pub fn has_compressed(&self) -> (r: bool)
        ensures
            r == (self.formats@.len() == 2),
    {
        self.formats.len() == 2
    }
}

} // verus!
