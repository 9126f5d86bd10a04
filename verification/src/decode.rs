//! Decoding the payloads of a mesh.
//!
//! A payload is decoded once: the first time it is asked for it has to be
//! fetched, and what is made of the fetched bytes is kept in the slot of the
//! mesh component; from then on the slot answers.

use vstd::prelude::*;
use std::sync::Arc;
use crate::accessor::{fetched_view, share, unpacked, FetchRequest};
use crate::err::{ErrorView, I3SError};
use crate::mesh::{MeshGeometry, MeshMaterial};
use crate::options::{Compression, Profile};
use crate::resource::{gated_request, request_view, ResourceManager};
use crate::uri::{gated, geometry_refusal, texture_refusal, UriBuilder};

verus! {

/// What asking for a payload comes to: the decoded bytes, or what to fetch
/// first.
#[derive(Debug, Clone, PartialEq, Eq)]
pub enum Decoded {
    Ready(Arc<Vec<u8>>),
    Fetch(FetchRequest),
}

/// `Decoded`, as contracts speak of it: the bytes, or the path to fetch and
/// whether the payload stored there is gzip data.
pub enum DecodedView {
    Ready(Seq<u8>),
    Fetch(Seq<char>, bool),
}

/// The outcome of asking for a payload, as contracts speak of it.
pub open spec fn decoded_view(r: Result<Decoded, I3SError>) -> Result<DecodedView, ErrorView> {
    match r {
        Ok(Decoded::Ready(bytes)) => Ok(DecodedView::Ready(bytes@)),
        Ok(Decoded::Fetch(request)) => Ok(DecodedView::Fetch(request.path@, request.gzip)),
        Err(e) => Err(e@),
    }
}

/// What is to be fetched, where something is.
pub open spec fn to_fetch(request: Result<(Seq<char>, bool), ErrorView>) -> Result<
    DecodedView,
    ErrorView,
> {
    match request {
        Ok((path, gzip)) => Ok(DecodedView::Fetch(path, gzip)),
        Err(e) => Err(e),
    }
}

/// What asking for the geometry of a mesh comes to: the bytes in the slot
/// where it has been decoded, else the request for the buffer of its
/// resource, where the scene allows the variant.
pub open spec fn geometry_decoding(
    manager: ResourceManager,
    geometry: MeshGeometry,
    compression: Compression,
) -> Result<DecodedView, ErrorView> {
    match geometry.cache {
        Some(bytes) => Ok(DecodedView::Ready(bytes@)),
        None => to_fetch(
            gated_request(
                gated(
                    geometry_refusal(manager.definition(), compression),
                    manager.geometry_path(geometry.resource, compression),
                ),
                true,
            ),
        ),
    }
}

/// The format slot of a variant: 0 holds the uncompressed format, 1 the
/// compressed one.
pub open spec fn format_slot(compression: Compression) -> int {
    match compression {
        Compression::Uncompressed => 0,
        Compression::Compressed => 1,
    }
}

/// What asking for the texture of a material comes to: the bytes in the slot
/// where it has been decoded. Else the material's definition id is looked up
/// in the texture set definitions of the scene, and the format in the slot
/// of the variant names the texture to request; a scene without texture set
/// definitions, an id past their end and a slot that the definition does not
/// declare are invalid requests.
pub open spec fn material_decoding(
    manager: ResourceManager,
    material: MeshMaterial,
    compression: Compression,
) -> Result<DecodedView, ErrorView> {
    match material.cache {
        Some(bytes) => Ok(DecodedView::Ready(bytes@)),
        None => match manager.definition().texture_set_definitions {
            None => Err(
                ErrorView::InvalidRequest(
                    "Texture set definitions not found in scene definition."@,
                ),
            ),
            Some(definitions) => if material.definition >= definitions@.len() {
                Err(ErrorView::InvalidRequest("Texture set definition id out of range"@))
            } else {
                let formats = definitions@[material.definition as int].formats@;
                if format_slot(compression) >= formats.len() {
                    Err(ErrorView::InvalidRequest("Texture format slot not declared"@))
                } else {
                    let format = formats[format_slot(compression)];
                    to_fetch(
                        gated_request(
                            gated(
                                texture_refusal(manager.definition(), compression),
                                manager.texture_path(
                                    material.resource,
                                    format.name@,
                                    format.format.name(),
                                    compression,
                                ),
                            ),
                            manager.texture_is_gzip(compression),
                        ),
                    )
                }
            },
        },
    }
}

/// What a slot holds after the answer to a request has come in: what it
/// held, if it held something; else the payload made of the answer; else,
/// where the fetch failed or the payload is corrupt, nothing, with the error.
pub open spec fn stored(
    slot: Option<Seq<u8>>,
    path: Seq<char>,
    gzip: bool,
    fetched: Result<Seq<u8>, ErrorView>,
) -> Result<Seq<u8>, ErrorView> {
    match slot {
        Some(bytes) => Ok(bytes),
        None => unpacked(path, gzip, fetched),
    }
}

fn fill(
    slot: &mut Option<Arc<Vec<u8>>>,
    request: &FetchRequest,
    fetched: Result<Vec<u8>, I3SError>,
) -> (r: Result<Arc<Vec<u8>>, I3SError>)
    ensures
        match stored(
            match *old(slot) {
                Some(bytes) => Some(bytes@),
                None => None,
            },
            request.path@,
            request.gzip,
            fetched_view(fetched),
        ) {
            Ok(payload) => r matches Ok(bytes) && bytes@ == payload && *final(slot) == Some(bytes),
            Err(e) => r matches Err(error) && error@ == e && *final(slot) == *old(slot),
        },
        *old(slot) matches Some(bytes) ==> r == Ok::<Arc<Vec<u8>>, I3SError>(bytes),
{
    match slot {
        Some(bytes) => Ok(share(bytes)),
        None => match request.unpack(fetched) {
            Ok(payload) => {
                let bytes = Arc::new(payload);
                *slot = Some(share(&bytes));
                Ok(bytes)
            },
            Err(e) => Err(e),
        },
    }
}

/// The decoder of the mesh pyramid profile.
pub struct MeshPyramidDecoder<'a> {
    pub manager: &'a ResourceManager,
}

impl<'a> MeshPyramidDecoder<'a> {
    /// A decoder over the backend `manager`.
    pub fn new(manager: &'a ResourceManager) -> (decoder: Self)
        ensures
            *decoder.manager == *manager,
    {
        Self { manager }
    }

    /// The decoded geometry, or what to fetch for it.
    pub fn decode_geometry(&self, geometry: &MeshGeometry, compression: &Compression) -> (r:
        Result<Decoded, I3SError>)
        ensures
            decoded_view(r) == geometry_decoding(*self.manager, *geometry, *compression),
            geometry.cache matches Some(bytes) ==> r == Ok::<Decoded, I3SError>(
                Decoded::Ready(bytes),
            ),
    {
        match &geometry.cache {
            Some(bytes) => Ok(Decoded::Ready(share(bytes))),
            None => match self.manager.geometry_request(&geometry.resource, compression) {
                Ok(request) => Ok(Decoded::Fetch(request)),
                Err(e) => Err(e),
            },
        }
    }

    /// Takes in the answer to the request for a geometry: the payload made
    /// of it is put into the slot of the geometry, unless the slot holds
    /// bytes already, and the bytes of the slot are returned.
    pub fn store_geometry(
        &self,
        geometry: &mut MeshGeometry,
        request: &FetchRequest,
        fetched: Result<Vec<u8>, I3SError>,
    ) -> (r: Result<Arc<Vec<u8>>, I3SError>)
        ensures
            match stored(
                old(geometry).decoded(),
                request.path@,
                request.gzip,
                fetched_view(fetched),
            ) {
                Ok(payload) => r matches Ok(bytes) && bytes@ == payload && final(geometry).cache
                    == Some(bytes),
                Err(e) => r matches Err(error) && error@ == e && final(geometry).cache == old(
                    geometry,
                ).cache,
            },
            old(geometry).cache matches Some(bytes) ==> r == Ok::<Arc<Vec<u8>>, I3SError>(bytes),
            final(geometry).definition == old(geometry).definition,
            final(geometry).resource == old(geometry).resource,
            final(geometry).vertex_count == old(geometry).vertex_count,
            final(geometry).feature_count == old(geometry).feature_count,
    {
        fill(&mut geometry.cache, request, fetched)
    }

    /// The decoded texture of a material, or what to fetch for it.
    pub fn decode_material(&self, material: &MeshMaterial, compression: &Compression) -> (r:
        Result<Decoded, I3SError>)
        ensures
            decoded_view(r) == material_decoding(*self.manager, *material, *compression),
            material.cache matches Some(bytes) ==> r == Ok::<Decoded, I3SError>(
                Decoded::Ready(bytes),
            ),
    {
        match &material.cache {
            Some(bytes) => {
                return Ok(Decoded::Ready(share(bytes)));
            },
            None => {},
        }
        match &self.manager.scene_definition().texture_set_definitions {
            None => Err(
                I3SError::invalid_request("Texture set definitions not found in scene definition."),
            ),
            Some(definitions) => {
                if material.definition >= definitions.len() {
                    return Err(I3SError::invalid_request("Texture set definition id out of range"));
                }
                let formats = &definitions[material.definition].formats;
                let slot: usize = match compression {
                    Compression::Uncompressed => 0,
                    Compression::Compressed => 1,
                };
                if slot >= formats.len() {
                    return Err(I3SError::invalid_request("Texture format slot not declared"));
                }
                let format = &formats[slot];
                match self.manager.texture_request(
                    &material.resource,
                    format.name.as_str(),
                    format.format.as_ref(),
                    compression,
                ) {
                    Ok(request) => Ok(Decoded::Fetch(request)),
                    Err(e) => Err(e),
                }
            },
        }
    }

    /// Takes in the answer to the request for a texture: the payload made of
    /// it is put into the slot of the material, unless the slot holds bytes
    /// already, and the bytes of the slot are returned.
    pub fn store_material(
        &self,
        material: &mut MeshMaterial,
        request: &FetchRequest,
        fetched: Result<Vec<u8>, I3SError>,
    ) -> (r: Result<Arc<Vec<u8>>, I3SError>)
        ensures
            match stored(
                old(material).decoded(),
                request.path@,
                request.gzip,
                fetched_view(fetched),
            ) {
                Ok(payload) => r matches Ok(bytes) && bytes@ == payload && final(material).cache
                    == Some(bytes),
                Err(e) => r matches Err(error) && error@ == e && final(material).cache == old(
                    material,
                ).cache,
            },
            old(material).cache matches Some(bytes) ==> r == Ok::<Arc<Vec<u8>>, I3SError>(bytes),
            final(material).definition == old(material).definition,
            final(material).resource == old(material).resource,
            final(material).texel_count_hint == old(material).texel_count_hint,
    {
        fill(&mut material.cache, request, fetched)
    }
}

/// The decoder that the profile of a scene selects.
pub enum ResourceDecoder<'a> {
    MeshPyramid(MeshPyramidDecoder<'a>),
}

/// The detail of the error for a profile that has no decoder.
pub open spec fn unsupported_profile() -> Seq<char> {
    "Unsupported profile"@
}

impl<'a> ResourceDecoder<'a> {
    /// The backend that the decoder reads.
    pub open spec fn manager(&self) -> ResourceManager {
        match *self {
            ResourceDecoder::MeshPyramid(decoder) => *decoder.manager,
        }
    }

    /// The decoder for a profile: the mesh pyramid profile has one, any
    /// other profile is an invalid request.
    pub fn new(manager: &'a ResourceManager, profile: &Profile) -> (r: Result<Self, I3SError>)
        ensures
            *profile == Profile::MeshPyramids ==> (r matches Ok(decoder) && decoder.manager()
                == *manager),
            *profile != Profile::MeshPyramids ==> (r matches Err(e) && e@
                == ErrorView::InvalidRequest(unsupported_profile())),
    {
        match profile {
            Profile::MeshPyramids => Ok(
                ResourceDecoder::MeshPyramid(MeshPyramidDecoder::new(manager)),
            ),
            Profile::Points => Err(I3SError::invalid_request("Unsupported profile")),
            Profile::PointClouds => Err(I3SError::invalid_request("Unsupported profile")),
            Profile::Building => Err(I3SError::invalid_request("Unsupported profile")),
        }
    }

    /// The decoded geometry, or what to fetch for it.
    pub fn decode_geometry(&self, geometry: &MeshGeometry, compression: &Compression) -> (r:
        Result<Decoded, I3SError>)
        ensures
            decoded_view(r) == geometry_decoding(self.manager(), *geometry, *compression),
            geometry.cache matches Some(bytes) ==> r == Ok::<Decoded, I3SError>(
                Decoded::Ready(bytes),
            ),
    {
        match self {
            ResourceDecoder::MeshPyramid(decoder) => decoder.decode_geometry(geometry, compression),
        }
    }

    /// Takes in the answer to the request for a geometry.
    pub fn store_geometry(
        &self,
        geometry: &mut MeshGeometry,
        request: &FetchRequest,
        fetched: Result<Vec<u8>, I3SError>,
    ) -> (r: Result<Arc<Vec<u8>>, I3SError>)
        ensures
            match stored(
                old(geometry).decoded(),
                request.path@,
                request.gzip,
                fetched_view(fetched),
            ) {
                Ok(payload) => r matches Ok(bytes) && bytes@ == payload && final(geometry).cache
                    == Some(bytes),
                Err(e) => r matches Err(error) && error@ == e && final(geometry).cache == old(
                    geometry,
                ).cache,
            },
            old(geometry).cache matches Some(bytes) ==> r == Ok::<Arc<Vec<u8>>, I3SError>(bytes),
            final(geometry).definition == old(geometry).definition,
            final(geometry).resource == old(geometry).resource,
            final(geometry).vertex_count == old(geometry).vertex_count,
            final(geometry).feature_count == old(geometry).feature_count,
    {
        match self {
            ResourceDecoder::MeshPyramid(decoder) => decoder.store_geometry(
                geometry,
                request,
                fetched,
            ),
        }
    }

    /// The decoded texture of a material, or what to fetch for it.
    pub fn decode_material(&self, material: &MeshMaterial, compression: &Compression) -> (r:
        Result<Decoded, I3SError>)
        ensures
            decoded_view(r) == material_decoding(self.manager(), *material, *compression),
            material.cache matches Some(bytes) ==> r == Ok::<Decoded, I3SError>(
                Decoded::Ready(bytes),
            ),
    {
        match self {
            ResourceDecoder::MeshPyramid(decoder) => decoder.decode_material(material, compression),
        }
    }

    /// Takes in the answer to the request for a texture.
    pub fn store_material(
        &self,
        material: &mut MeshMaterial,
        request: &FetchRequest,
        fetched: Result<Vec<u8>, I3SError>,
    ) -> (r: Result<Arc<Vec<u8>>, I3SError>)
        ensures
            match stored(
                old(material).decoded(),
                request.path@,
                request.gzip,
                fetched_view(fetched),
            ) {
                Ok(payload) => r matches Ok(bytes) && bytes@ == payload && final(material).cache
                    == Some(bytes),
                Err(e) => r matches Err(error) && error@ == e && final(material).cache == old(
                    material,
                ).cache,
            },
            old(material).cache matches Some(bytes) ==> r == Ok::<Arc<Vec<u8>>, I3SError>(bytes),
            final(material).definition == old(material).definition,
            final(material).resource == old(material).resource,
            final(material).texel_count_hint == old(material).texel_count_hint,
    {
        match self {
            ResourceDecoder::MeshPyramid(decoder) => decoder.store_material(
                material,
                request,
                fetched,
            ),
        }
    }
}

/// The decoder that a profile selects, over the backend `manager`.
pub fn decoder_factory<'a>(profile: &Profile, manager: &'a ResourceManager) -> (r: Result<
    ResourceDecoder<'a>,
    I3SError,
>)
    ensures
        *profile == Profile::MeshPyramids ==> (r matches Ok(decoder) && decoder.manager()
            == *manager),
        *profile != Profile::MeshPyramids ==> (r matches Err(e) && e@ == ErrorView::InvalidRequest(
            unsupported_profile(),
        )),
{
    ResourceDecoder::new(manager, profile)
}

/// Decoding twice gives the same bytes, and the second time nothing is
/// fetched: once the answer to a request has been stored in a slot, asking
/// for the geometry returns the stored bytes, whatever the variant asked
/// for and whatever the backend.
pub proof fn lemma_geometry_is_decoded_once(
    manager: ResourceManager,
    geometry: MeshGeometry,
    payload: Seq<u8>,
    compression: Compression,
)
    requires
        geometry.decoded() == Some(payload),
    ensures
        geometry_decoding(manager, geometry, compression) == Ok::<DecodedView, ErrorView>(
            DecodedView::Ready(payload),
        ),
{
}

/// The same for the texture of a material.
pub proof fn lemma_material_is_decoded_once(
    manager: ResourceManager,
    material: MeshMaterial,
    payload: Seq<u8>,
    compression: Compression,
)
    requires
        material.decoded() == Some(payload),
    ensures
        material_decoding(manager, material, compression) == Ok::<DecodedView, ErrorView>(
            DecodedView::Ready(payload),
        ),
{
}

/// A slot that holds bytes keeps them: no answer that comes in later
/// changes what is decoded.
pub proof fn lemma_stored_is_kept(
    payload: Seq<u8>,
    path: Seq<char>,
    gzip: bool,
    fetched: Result<Seq<u8>, ErrorView>,
)
    ensures
        stored(Some(payload), path, gzip, fetched) == Ok::<Seq<u8>, ErrorView>(payload),
{
}

} // verus!
