//! Resource paths, and the rule by which a scene allows them.
//!
//! Whether a variant of a payload can be asked for depends on the scene
//! definition alone, so both backends allow the same variants; they differ
//! only in how the path is spelled.

use vstd::prelude::*;
use crate::defn::SceneDefinition;
use crate::err::{ErrorView, I3SError};
use crate::geom::GeometryDefinition;
use crate::options::Compression;
use crate::visual::TextureSetDefinition;

verus! {

/// Whether some geometry definition declares a compressed buffer.
pub open spec fn declares_compressed_geometry(definitions: Seq<GeometryDefinition>) -> bool {
    exists|i: int| 0 <= i < definitions.len() && (#[trigger] definitions[i]).declares_compressed()
}

/// Whether some texture set definition declares both format slots.
pub open spec fn declares_compressed_texture(definitions: Seq<TextureSetDefinition>) -> bool {
    exists|i: int| 0 <= i < definitions.len() && (#[trigger] definitions[i]).formats@.len() == 2
}

/// Why the scene refuses a geometry variant, or `None` where it allows it:
/// the uncompressed variant always, the compressed one where some geometry
/// definition declares a compressed buffer.
pub open spec fn geometry_refusal(scene: SceneDefinition, compression: Compression) -> Option<
    Seq<char>,
> {
    match compression {
        Compression::Uncompressed => None,
        Compression::Compressed => match scene.geometry_definitions {
            None => Some("Geometry definitions not found in scene definition."@),
            Some(definitions) => if declares_compressed_geometry(definitions@) {
                None
            } else {
                Some("No compressed geometry URI available"@)
            },
        },
    }
}

/// Why the scene refuses a texture variant, or `None` where it allows it:
/// the uncompressed variant where the scene has a texture set definition,
/// the compressed one where some texture set definition declares both
/// format slots.
pub open spec fn texture_refusal(scene: SceneDefinition, compression: Compression) -> Option<
    Seq<char>,
> {
    match scene.texture_set_definitions {
        None => Some("Texture definitions not found in scene definition."@),
        Some(definitions) => match compression {
            Compression::Uncompressed => if definitions@.len() > 0 {
                None
            } else {
                Some("No uncompressed texture URI available"@)
            },
            Compression::Compressed => if declares_compressed_texture(definitions@) {
                None
            } else {
                Some("No compressed texture URI available"@)
            },
        },
    }
}

/// What a request for a path comes to: the path where the scene allows the
/// variant, the refusal as an invalid-request error where it does not.
pub open spec fn gated(refusal: Option<Seq<char>>, path: Seq<char>) -> Result<
    Seq<char>,
    ErrorView,
> {
    match refusal {
        None => Ok(path),
        Some(reason) => Err(ErrorView::InvalidRequest(reason)),
    }
}

/// A path or an error, as contracts speak of them.
pub open spec fn uri_view(r: Result<String, I3SError>) -> Result<Seq<char>, ErrorView> {
    match r {
        Ok(path) => Ok(path@),
        Err(e) => Err(e@),
    }
}

fn has_compressed_geometry(definitions: &Vec<GeometryDefinition>) -> (r: bool)
    ensures
        r == declares_compressed_geometry(definitions@),
{
    let mut i: usize = 0;
    while i < definitions.len()
        invariant
            i <= definitions@.len(),
            forall|k: int| 0 <= k < i ==> !(#[trigger] definitions@[k]).declares_compressed(),
        decreases definitions@.len() - i,
    {
        if definitions[i].has_compressed() {
            return true;
        }
        i += 1;
    }
    false
}

fn has_compressed_texture(definitions: &Vec<TextureSetDefinition>) -> (r: bool)
    ensures
        r == declares_compressed_texture(definitions@),
{
    let mut i: usize = 0;
    while i < definitions.len()
        invariant
            i <= definitions@.len(),
            forall|k: int| 0 <= k < i ==> (#[trigger] definitions@[k]).formats@.len() != 2,
        decreases definitions@.len() - i,
    {
        if definitions[i].has_compressed() {
            return true;
        }
        i += 1;
    }
    false
}

/// Tests whether the scene allows a geometry variant.
pub fn check_geometry(scene: &SceneDefinition, compression: &Compression) -> (r: Result<
    (),
    I3SError,
>)
    ensures
        match geometry_refusal(*scene, *compression) {
            None => r is Ok,
            Some(reason) => r matches Err(e) && e@ == ErrorView::InvalidRequest(reason),
        },
{
    match compression {
        Compression::Uncompressed => Ok(()),
        Compression::Compressed => match &scene.geometry_definitions {
            None => Err(
                I3SError::invalid_request("Geometry definitions not found in scene definition."),
            ),
            Some(definitions) => if has_compressed_geometry(definitions) {
                Ok(())
            } else {
                Err(I3SError::invalid_request("No compressed geometry URI available"))
            },
        },
    }
}

/// Tests whether the scene allows a texture variant.
pub fn check_texture(scene: &SceneDefinition, compression: &Compression) -> (r: Result<
    (),
    I3SError,
>)
    ensures
        match texture_refusal(*scene, *compression) {
            None => r is Ok,
            Some(reason) => r matches Err(e) && e@ == ErrorView::InvalidRequest(reason),
        },
{
    match &scene.texture_set_definitions {
        None => Err(I3SError::invalid_request("Texture definitions not found in scene definition.")),
        Some(definitions) => match compression {
            Compression::Uncompressed => if definitions.len() > 0 {
                Ok(())
            } else {
                Err(I3SError::invalid_request("No uncompressed texture URI available"))
            },
            Compression::Compressed => if has_compressed_texture(definitions) {
                Ok(())
            } else {
                Err(I3SError::invalid_request("No compressed texture URI available"))
            },
        },
    }
}

/// A backend as a builder of resource paths.
pub trait UriBuilder {
    /// The scene whose declarations allow or refuse a variant.
    spec fn scene(&self) -> SceneDefinition;

    /// How this backend spells the path of a geometry buffer.
    spec fn geometry_path(&self, resource: usize, compression: Compression) -> Seq<char>;

    /// How this backend spells the path of a texture.
    spec fn texture_path(
        &self,
        resource: usize,
        name: Seq<char>,
        fmt: Seq<char>,
        compression: Compression,
    ) -> Seq<char>;

    /// The path of a geometry buffer of the resource, or the refusal of the
    /// scene.
    fn create_geometry_uri(&self, resource: &usize, compression: &Compression) -> (r: Result<
        String,
        I3SError,
    >)
        ensures
            uri_view(r) == gated(
                geometry_refusal(self.scene(), *compression),
                self.geometry_path(*resource, *compression),
            ),
    ;

    /// The path of a texture of the resource, or the refusal of the scene.
    fn create_texture_uri(
        &self,
        resource: &usize,
        name: &str,
        fmt: &str,
        compression: &Compression,
    ) -> (r: Result<String, I3SError>)
        ensures
            uri_view(r) == gated(
                texture_refusal(self.scene(), *compression),
                self.texture_path(*resource, name@, fmt@, *compression),
            ),
    ;
}

/// Two backends over the same scene allow the same variants: a path from one
/// means a path from the other, whatever the resource and the names.
pub proof fn lemma_backends_allow_alike<A: UriBuilder, B: UriBuilder>(
    a: A,
    b: B,
    compression: Compression,
    resource_a: usize,
    resource_b: usize,
    name_a: Seq<char>,
    name_b: Seq<char>,
    fmt_a: Seq<char>,
    fmt_b: Seq<char>,
)
    requires
        a.scene() == b.scene(),
    ensures
        gated(
            geometry_refusal(a.scene(), compression),
            a.geometry_path(resource_a, compression),
        ) is Ok <==> gated(
            geometry_refusal(b.scene(), compression),
            b.geometry_path(resource_b, compression),
        ) is Ok,
        gated(
            texture_refusal(a.scene(), compression),
            a.texture_path(resource_a, name_a, fmt_a, compression),
        ) is Ok <==> gated(
            texture_refusal(b.scene(), compression),
            b.texture_path(resource_b, name_b, fmt_b, compression),
        ) is Ok,
{
}

} // verus!
