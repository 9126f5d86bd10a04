use std::io::Write;
use std::sync::Arc;

use i3s::accessor::FetchRequest;
use i3s::crs::SpatialReference;
use i3s::decode::{decoder_factory, Decoded, MeshPyramidDecoder, ResourceDecoder};
use i3s::defn::{SceneDefinition, Store};
use i3s::err::I3SError;
use i3s::mesh::{MeshGeometry, MeshMaterial};
use i3s::options::{Compression, I3SFormat, ImageFormat, LayerType, Profile};
use i3s::resource::{resource_manager_factory, ResourceManager};
use i3s::slpk::SceneLayerPackage;
use i3s::visual::{TextureFormat, TextureSetDefinition};
use i3s::SceneLayer;

fn decode_scene(
    profile: Profile,
    texture_set_definitions: Option<Vec<TextureSetDefinition>>,
) -> SceneDefinition {
    SceneDefinition {
        id: 0,
        name: "decode".to_string(),
        spatial_reference: SpatialReference {
            wkid: 3857,
            latest_wkid: None,
            vcs_wkid: None,
            latest_vcs_wkid: None,
        },
        layer_type: LayerType::IntegratedMesh,
        store: Store {
            id: "0".to_string(),
            profile,
            version: "1.8".to_string(),
            resource_pattern: vec![],
            root_node: None,
            extent: vec![],
            index_crs: String::new(),
            vertex_crs: String::new(),
            normal_reference_frame: None,
            lod_type: "MeshPyramid".to_string(),
            default_geometry_schema: None,
            lod_model: String::new(),
        },
        version: None,
        capabilities: None,
        href: None,
        height_model: None,
        alias: None,
        description: None,
        copyright_text: None,
        z_factor: None,
        elevation: None,
        fields: None,
        attribute_storage: None,
        statistics: None,
        node_pages: None,
        material_definitions: None,
        texture_set_definitions,
        geometry_definitions: None,
        full_extent: None,
    }
}

fn two_slots() -> TextureSetDefinition {
    TextureSetDefinition {
        formats: vec![
            TextureFormat { name: "0".to_string(), format: ImageFormat::JPG },
            TextureFormat { name: "0_0_1".to_string(), format: ImageFormat::DDS },
        ],
        atlas: false,
    }
}

fn one_slot() -> TextureSetDefinition {
    TextureSetDefinition {
        formats: vec![TextureFormat { name: "0".to_string(), format: ImageFormat::PNG }],
        atlas: true,
    }
}

fn archive(textures: Option<Vec<TextureSetDefinition>>) -> ResourceManager {
    resource_manager_factory(
        I3SFormat::SLPK,
        "scene.slpk",
        decode_scene(Profile::MeshPyramids, textures),
    )
}

fn service(textures: Option<Vec<TextureSetDefinition>>) -> ResourceManager {
    resource_manager_factory(
        I3SFormat::REST,
        "http://host",
        decode_scene(Profile::MeshPyramids, textures),
    )
}

fn gzip(data: &[u8]) -> Vec<u8> {
    let mut encoder = flate2::write::GzEncoder::new(Vec::new(), flate2::Compression::default());
    encoder.write_all(data).unwrap();
    encoder.finish().unwrap()
}

fn request_of(decoded: Result<Decoded, I3SError>) -> FetchRequest {
    match decoded {
        Ok(Decoded::Fetch(request)) => request,
        other => panic!("expected a request, got {:?}", other),
    }
}

fn refusal(decoded: Result<Decoded, I3SError>) -> String {
    match decoded {
        Err(I3SError::InvalidRequest(detail)) => detail,
        other => panic!("expected a refusal, got {:?}", other),
    }
}

#[test]
fn geometry_is_fetched_decompressed_and_kept() {
    let manager = archive(None);
    let decoder = MeshPyramidDecoder::new(&manager);
    let mut geometry = MeshGeometry::new(0, 17, 300, None);
    assert!(!geometry.is_decoded());
    let request = request_of(decoder.decode_geometry(&geometry, &Compression::Uncompressed));
    assert_eq!(request.path, "nodes/17/geometries/0.bin");
    assert!(request.gzip);
    let payload = b"vertices and faces".to_vec();
    let first = decoder.store_geometry(&mut geometry, &request, Ok(gzip(&payload))).unwrap();
    assert_eq!(*first, payload);
    assert!(geometry.is_decoded());
    for compression in [Compression::Uncompressed, Compression::Compressed] {
        match decoder.decode_geometry(&geometry, &compression) {
            Ok(Decoded::Ready(bytes)) => {
                assert_eq!(*bytes, payload);
                assert!(Arc::ptr_eq(&bytes, &first));
            }
            other => panic!("the geometry is decoded, got {:?}", other),
        }
    }
    let again = decoder.store_geometry(&mut geometry, &request, Ok(gzip(b"other"))).unwrap();
    assert!(Arc::ptr_eq(&again, &first));
    let again = decoder
        .store_geometry(&mut geometry, &request, Err(I3SError::Transport("down".to_string())))
        .unwrap();
    assert!(Arc::ptr_eq(&again, &first));
    assert_eq!(geometry.resource, 17);
    assert_eq!(geometry.vertex_count, 300);
}

#[test]
fn geometry_that_is_not_gzip_data() {
    let manager = service(None);
    let decoder = MeshPyramidDecoder::new(&manager);
    let mut geometry = MeshGeometry::new(0, 4, 3, Some(1));
    let request = request_of(decoder.decode_geometry(&geometry, &Compression::Uncompressed));
    assert_eq!(request.path, "layers/0/nodes/4/geometries/0");
    match decoder.store_geometry(&mut geometry, &request, Ok(b"plain bytes".to_vec())) {
        Err(I3SError::DecompressionError(detail)) => {
            assert!(detail.starts_with("layers/0/nodes/4/geometries/0: "));
            assert!(detail.len() > "layers/0/nodes/4/geometries/0: ".len());
        }
        other => panic!("expected a decompression error, got {:?}", other),
    }
    assert!(!geometry.is_decoded());
    let mut cut = gzip(b"a payload that is cut short before its end");
    cut.truncate(cut.len() - 6);
    assert!(matches!(
        decoder.store_geometry(&mut geometry, &request, Ok(cut)),
        Err(I3SError::DecompressionError(_))
    ));
    assert!(!geometry.is_decoded());
    assert!(matches!(
        decoder.store_geometry(&mut geometry, &request, Ok(vec![])),
        Err(I3SError::DecompressionError(_))
    ));
    let bytes = decoder.store_geometry(&mut geometry, &request, Ok(gzip(b""))).unwrap();
    assert!(bytes.is_empty());
    assert!(geometry.is_decoded());
}

#[test]
fn failed_fetch_is_reported_as_it_was() {
    let manager = archive(None);
    let decoder = MeshPyramidDecoder::new(&manager);
    let mut geometry = MeshGeometry::new(0, 4, 3, None);
    let request = request_of(decoder.decode_geometry(&geometry, &Compression::Uncompressed));
    for failure in [
        I3SError::Transport("connection reset".to_string()),
        I3SError::ResourceNotFound("nodes/4/geometries/0.bin".to_string()),
    ] {
        assert_eq!(
            decoder.store_geometry(&mut geometry, &request, Err(failure.clone())),
            Err(failure)
        );
        assert!(!geometry.is_decoded());
    }
    assert_eq!(request_of(decoder.decode_geometry(&geometry, &Compression::Uncompressed)), request);
}

#[test]
fn compressed_geometry_of_a_scene_without_compressed_buffers() {
    let manager = archive(None);
    let decoder = MeshPyramidDecoder::new(&manager);
    let geometry = MeshGeometry::new(0, 4, 3, None);
    assert_eq!(
        refusal(decoder.decode_geometry(&geometry, &Compression::Compressed)),
        "Geometry definitions not found in scene definition."
    );
}

#[test]
fn material_is_fetched_and_kept() {
    let manager = archive(Some(vec![one_slot(), two_slots()]));
    let decoder = MeshPyramidDecoder::new(&manager);
    let mut material = MeshMaterial::new(1, 9, Some(1024));
    let request = request_of(decoder.decode_material(&material, &Compression::Uncompressed));
    assert_eq!(request.path, "nodes/9/textures/0.bin.jpg");
    assert!(!request.gzip);
    let image = vec![0xff, 0xd8, 0xff, 0xe0, 1, 2, 3];
    let first = decoder.store_material(&mut material, &request, Ok(image.clone())).unwrap();
    assert_eq!(*first, image);
    assert!(material.is_decoded());
    match decoder.decode_material(&material, &Compression::Compressed) {
        Ok(Decoded::Ready(bytes)) => assert!(Arc::ptr_eq(&bytes, &first)),
        other => panic!("the material is decoded, got {:?}", other),
    }
    assert_eq!(material.texel_count_hint, Some(1024));
}

#[test]
fn compressed_texture_of_an_archive_is_gzip_data() {
    let manager = archive(Some(vec![two_slots()]));
    let decoder = MeshPyramidDecoder::new(&manager);
    let mut material = MeshMaterial::new(0, 9, None);
    let request = request_of(decoder.decode_material(&material, &Compression::Compressed));
    assert_eq!(request.path, "nodes/9/textures/0_0_1.bin.dds.gz");
    assert!(request.gzip);
    let bytes = decoder.store_material(&mut material, &request, Ok(gzip(b"DDS |"))).unwrap();
    assert_eq!(*bytes, b"DDS |".to_vec());
    let manager = service(Some(vec![two_slots()]));
    let decoder = MeshPyramidDecoder::new(&manager);
    let mut material = MeshMaterial::new(0, 9, None);
    let request = request_of(decoder.decode_material(&material, &Compression::Compressed));
    assert_eq!(request.path, "layers/0/nodes/9/textures/0_0_1");
    assert!(!request.gzip);
    let raw = gzip(b"DDS |");
    let bytes = decoder.store_material(&mut material, &request, Ok(raw.clone())).unwrap();
    assert_eq!(*bytes, raw);
}

#[test]
fn material_requests_that_the_scene_cannot_serve() {
    let manager = archive(None);
    let decoder = MeshPyramidDecoder::new(&manager);
    let material = MeshMaterial::new(0, 9, None);
    assert_eq!(
        refusal(decoder.decode_material(&material, &Compression::Uncompressed)),
        "Texture set definitions not found in scene definition."
    );
    let manager = archive(Some(vec![one_slot(), two_slots()]));
    let decoder = MeshPyramidDecoder::new(&manager);
    assert_eq!(
        refusal(decoder.decode_material(&MeshMaterial::new(2, 9, None), &Compression::Uncompressed)),
        "Texture set definition id out of range"
    );
    assert_eq!(
        refusal(decoder.decode_material(&MeshMaterial::new(0, 9, None), &Compression::Compressed)),
        "Texture format slot not declared"
    );
    assert!(decoder.decode_material(&MeshMaterial::new(1, 9, None), &Compression::Compressed).is_ok());
    let manager = archive(Some(vec![one_slot()]));
    let decoder = MeshPyramidDecoder::new(&manager);
    assert_eq!(
        refusal(decoder.decode_material(&MeshMaterial::new(0, 9, None), &Compression::Compressed)),
        "Texture format slot not declared"
    );
    let manager = archive(Some(vec![TextureSetDefinition { formats: vec![], atlas: false }]));
    let decoder = MeshPyramidDecoder::new(&manager);
    assert_eq!(
        refusal(decoder.decode_material(&MeshMaterial::new(0, 9, None), &Compression::Uncompressed)),
        "Texture format slot not declared"
    );
}

#[test]
fn decoder_is_selected_by_profile() {
    let manager = archive(None);
    assert!(matches!(
        ResourceDecoder::new(&manager, &Profile::MeshPyramids),
        Ok(ResourceDecoder::MeshPyramid(_))
    ));
    assert!(decoder_factory(&Profile::MeshPyramids, &manager).is_ok());
    for profile in [Profile::Points, Profile::PointClouds, Profile::Building] {
        match ResourceDecoder::new(&manager, &profile) {
            Err(e) => assert_eq!(e, I3SError::InvalidRequest("Unsupported profile".to_string())),
            Ok(_) => panic!("the profile has no decoder"),
        }
        assert!(decoder_factory(&profile, &manager).is_err());
        let layer = SceneLayer::new(resource_manager_factory(
            I3SFormat::SLPK,
            "scene.slpk",
            decode_scene(profile, None),
        ));
        assert!(layer.create_decoder().is_err());
    }
}

#[test]
fn scene_decoder_decodes_through_the_profile_decoder() {
    let layer = SceneLayer::new(archive(Some(vec![two_slots()])));
    let decoder = layer.create_decoder().ok().unwrap();
    let mut geometry = MeshGeometry::new(0, 1, 3, None);
    let request = request_of(decoder.decode_geometry(&geometry, &Compression::Uncompressed));
    assert_eq!(request.path, "nodes/1/geometries/0.bin");
    let bytes = decoder.store_geometry(&mut geometry, &request, Ok(gzip(b"abc"))).unwrap();
    assert_eq!(*bytes, b"abc".to_vec());
    let mut material = MeshMaterial::new(0, 1, None);
    let request = request_of(decoder.decode_material(&material, &Compression::Uncompressed));
    assert_eq!(request.path, "nodes/1/textures/0.bin.jpg");
    let bytes = decoder.store_material(&mut material, &request, Ok(vec![7, 8])).unwrap();
    assert_eq!(*bytes, vec![7, 8]);
    assert!(matches!(
        decoder.decode_material(&material, &Compression::Uncompressed),
        Ok(Decoded::Ready(_))
    ));
}

#[test]
fn unpack_takes_plain_payloads_as_they_are() {
    let request = FetchRequest { path: "layers/0".to_string(), gzip: false };
    let raw = gzip(b"{}");
    assert_eq!(request.unpack(Ok(raw.clone())), Ok(raw.clone()));
    let request = FetchRequest { path: "3dSceneLayer.json.gz".to_string(), gzip: true };
    assert_eq!(request.unpack(Ok(raw)), Ok(b"{}".to_vec()));
    assert_eq!(request.decompressed(Ok(vec![1])), Ok(vec![1]));
    assert_eq!(
        request.decompressed(Err("bad header".to_string())),
        Err(I3SError::DecompressionError("3dSceneLayer.json.gz: bad header".to_string()))
    );
}

#[test]
fn first_gzip_member_is_the_payload() {
    let request = FetchRequest { path: "p".to_string(), gzip: true };
    let mut two = gzip(b"first");
    two.extend(gzip(b"second"));
    assert_eq!(request.unpack(Ok(two)), Ok(b"first".to_vec()));
    let long: Vec<u8> = (0..100_000u32).map(|i| (i % 251) as u8).collect();
    assert_eq!(request.unpack(Ok(gzip(&long))), Ok(long));
}

#[test]
fn archive_without_scene_definition_is_not_found() {
    let missing = I3SError::ResourceNotFound("3dSceneLayer.json.gz".to_string());
    assert_eq!(SceneLayerPackage::decode_scene_definition(Err(missing.clone())), Err(missing));
}

#[test]
fn scene_definition_entry_is_decompressed() {
    let json = br#"{"id":0}"#.to_vec();
    assert_eq!(SceneLayerPackage::decode_scene_definition(Ok(gzip(&json))), Ok(json));
    match SceneLayerPackage::decode_scene_definition(Ok(b"{}".to_vec())) {
        Err(I3SError::DecompressionError(detail)) => {
            assert!(detail.starts_with("3dSceneLayer.json.gz: "))
        }
        other => panic!("expected a decompression error, got {:?}", other),
    }
}
