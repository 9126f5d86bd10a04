use i3s::accessor::Accessor;
use i3s::attr::CompressedAttributes;
use i3s::crs::SpatialReference;
use i3s::defn::{SceneDefinition, Store};
use i3s::err::I3SError;
use i3s::geom::{GeometryBuffer, GeometryDefinition};
use i3s::options::{Compression, I3SFormat, ImageFormat, LayerType, Profile};
use i3s::resource::{resource_manager_factory, ResourceManager};
use i3s::service::Service;
use i3s::slpk::SceneLayerPackage;
use i3s::text::{append_decimal, ends_with, same_text, starts_with, trim_end_matches};
use i3s::uri::{check_geometry, check_texture, UriBuilder};
use i3s::visual::{TextureFormat, TextureSetDefinition};
use i3s::SceneLayer;

fn uri_scene(
    geometry_definitions: Option<Vec<GeometryDefinition>>,
    texture_set_definitions: Option<Vec<TextureSetDefinition>>,
) -> SceneDefinition {
    SceneDefinition {
        id: 0,
        name: "uris".to_string(),
        spatial_reference: SpatialReference {
            wkid: 3857,
            latest_wkid: None,
            vcs_wkid: None,
            latest_vcs_wkid: None,
        },
        layer_type: LayerType::IntegratedMesh,
        store: Store {
            id: "0".to_string(),
            profile: Profile::MeshPyramids,
            version: "1.8".to_string(),
            resource_pattern: vec![],
            root_node: None,
            extent: vec![],
            index_crs: String::new(),
            vertex_crs: String::new(),
            normal_reference_frame: None,
            lod_type: "MeshPyramid".to_string(),
            default_geometry_schema: None,
            lod_model: String::new(),
        },
        version: None,
        capabilities: None,
        href: None,
        height_model: None,
        alias: None,
        description: None,
        copyright_text: None,
        z_factor: None,
        elevation: None,
        fields: None,
        attribute_storage: None,
        statistics: None,
        node_pages: None,
        material_definitions: None,
        texture_set_definitions,
        geometry_definitions,
        full_extent: None,
    }
}

fn plain_buffer() -> GeometryBuffer {
    GeometryBuffer::default()
}

fn draco_buffer() -> GeometryBuffer {
    GeometryBuffer {
        compressed_attributes: Some(CompressedAttributes {
            encoding: "draco".to_string(),
            attributes: vec!["position".to_string()],
        }),
        ..GeometryBuffer::default()
    }
}

fn geometry(buffers: Vec<GeometryBuffer>) -> GeometryDefinition {
    GeometryDefinition { geometry_buffers: buffers, topology: None }
}

fn textures(slots: usize) -> TextureSetDefinition {
    let all = vec![
        TextureFormat { name: "0".to_string(), format: ImageFormat::JPG },
        TextureFormat { name: "0_0_1".to_string(), format: ImageFormat::DDS },
        TextureFormat { name: "1".to_string(), format: ImageFormat::KTX2 },
    ];
    TextureSetDefinition { formats: all.into_iter().take(slots).collect(), atlas: false }
}

fn both(scene: SceneDefinition) -> (ResourceManager, ResourceManager) {
    (
        resource_manager_factory(I3SFormat::SLPK, "data/scene.slpk", scene.clone()),
        resource_manager_factory(I3SFormat::REST, "http://host/rest/", scene),
    )
}

fn refused(text: &str) -> Result<String, I3SError> {
    Err(I3SError::InvalidRequest(text.to_string()))
}

#[test]
fn uncompressed_geometry_always_resolves_to_slot_zero() {
    let (archive, service) = both(uri_scene(None, None));
    assert_eq!(
        archive.create_geometry_uri(&7, &Compression::Uncompressed),
        Ok("nodes/7/geometries/0.bin".to_string())
    );
    assert_eq!(
        service.create_geometry_uri(&7, &Compression::Uncompressed),
        Ok("layers/0/nodes/7/geometries/0".to_string())
    );
}

#[test]
fn compressed_geometry_resolves_to_slot_one_where_declared() {
    let scene =
        uri_scene(Some(vec![geometry(vec![plain_buffer()]), geometry(vec![plain_buffer(), draco_buffer()])]), None);
    let (archive, service) = both(scene);
    assert_eq!(
        archive.create_geometry_uri(&1234, &Compression::Compressed),
        Ok("nodes/1234/geometries/1.bin".to_string())
    );
    assert_eq!(
        service.create_geometry_uri(&1234, &Compression::Compressed),
        Ok("layers/0/nodes/1234/geometries/1".to_string())
    );
}

#[test]
fn compressed_geometry_without_compressed_buffer_is_unavailable() {
    let scene = uri_scene(Some(vec![geometry(vec![plain_buffer()]), geometry(vec![])]), None);
    let (archive, service) = both(scene);
    assert_eq!(
        archive.create_geometry_uri(&5, &Compression::Compressed),
        refused("No compressed geometry URI available")
    );
    assert_eq!(
        service.create_geometry_uri(&5, &Compression::Compressed),
        refused("No compressed geometry URI available")
    );
    assert!(archive.geometry_request(&5, &Compression::Compressed).is_err());
    let (archive, service) = both(uri_scene(Some(vec![]), None));
    assert_eq!(
        archive.create_geometry_uri(&5, &Compression::Compressed),
        refused("No compressed geometry URI available")
    );
    assert_eq!(
        service.create_geometry_uri(&5, &Compression::Compressed),
        refused("No compressed geometry URI available")
    );
}

#[test]
fn compressed_geometry_without_definitions_is_refused() {
    let (archive, service) = both(uri_scene(None, None));
    assert_eq!(
        archive.create_geometry_uri(&5, &Compression::Compressed),
        refused("Geometry definitions not found in scene definition.")
    );
    assert_eq!(
        service.create_geometry_uri(&5, &Compression::Compressed),
        refused("Geometry definitions not found in scene definition.")
    );
}

#[test]
fn texture_paths_of_both_backends() {
    let (archive, service) = both(uri_scene(None, Some(vec![textures(1), textures(2)])));
    assert_eq!(
        archive.create_texture_uri(&3, "0", "jpg", &Compression::Uncompressed),
        Ok("nodes/3/textures/0.bin.jpg".to_string())
    );
    assert_eq!(
        archive.create_texture_uri(&3, "0_0_1", "dds", &Compression::Compressed),
        Ok("nodes/3/textures/0_0_1.bin.dds.gz".to_string())
    );
    assert_eq!(
        service.create_texture_uri(&3, "0", "jpg", &Compression::Uncompressed),
        Ok("layers/0/nodes/3/textures/0".to_string())
    );
    assert_eq!(
        service.create_texture_uri(&3, "0_0_1", "dds", &Compression::Compressed),
        Ok("layers/0/nodes/3/textures/0_0_1".to_string())
    );
}

#[test]
fn texture_variants_that_the_scene_does_not_declare() {
    let (archive, service) = both(uri_scene(None, Some(vec![textures(1), textures(3)])));
    for manager in [&archive, &service] {
        assert_eq!(
            manager.create_texture_uri(&3, "0_0_1", "dds", &Compression::Compressed),
            refused("No compressed texture URI available")
        );
        assert!(manager.create_texture_uri(&3, "0", "jpg", &Compression::Uncompressed).is_ok());
    }
    let (archive, service) = both(uri_scene(None, Some(vec![])));
    for manager in [&archive, &service] {
        assert_eq!(
            manager.create_texture_uri(&3, "0", "jpg", &Compression::Uncompressed),
            refused("No uncompressed texture URI available")
        );
        assert_eq!(
            manager.create_texture_uri(&3, "0", "jpg", &Compression::Compressed),
            refused("No compressed texture URI available")
        );
    }
    let (archive, service) = both(uri_scene(None, None));
    for manager in [&archive, &service] {
        for compression in [Compression::Uncompressed, Compression::Compressed] {
            assert_eq!(
                manager.create_texture_uri(&3, "0", "jpg", &compression),
                refused("Texture definitions not found in scene definition.")
            );
        }
    }
}

#[test]
fn both_backends_allow_the_same_variants() {
    let scenes = vec![
        uri_scene(None, None),
        uri_scene(Some(vec![]), Some(vec![])),
        uri_scene(Some(vec![geometry(vec![plain_buffer()])]), Some(vec![textures(1)])),
        uri_scene(Some(vec![geometry(vec![draco_buffer()])]), Some(vec![textures(2)])),
        uri_scene(Some(vec![geometry(vec![draco_buffer()])]), None),
        uri_scene(None, Some(vec![textures(0), textures(2)])),
    ];
    for scene in scenes {
        let (archive, service) = both(scene.clone());
        for compression in [Compression::Uncompressed, Compression::Compressed] {
            assert_eq!(
                archive.create_geometry_uri(&1, &compression).is_ok(),
                service.create_geometry_uri(&1, &compression).is_ok()
            );
            assert_eq!(
                archive.create_geometry_uri(&1, &compression).is_ok(),
                check_geometry(&scene, &compression).is_ok()
            );
            assert_eq!(
                archive.create_texture_uri(&1, "0", "png", &compression).is_ok(),
                service.create_texture_uri(&1, "0", "png", &compression).is_ok()
            );
            assert_eq!(
                service.create_texture_uri(&1, "0", "png", &compression).is_ok(),
                check_texture(&scene, &compression).is_ok()
            );
        }
    }
}

#[test]
fn requests_say_what_is_gzip_data() {
    let scene = uri_scene(Some(vec![geometry(vec![draco_buffer()])]), Some(vec![textures(2)]));
    let (archive, service) = both(scene);
    for manager in [&archive, &service] {
        for compression in [Compression::Uncompressed, Compression::Compressed] {
            let request = manager.geometry_request(&8, &compression).unwrap();
            assert!(request.gzip);
            assert_eq!(Ok(request.path), manager.create_geometry_uri(&8, &compression));
        }
    }
    let request = archive.texture_request(&8, "0_0_1", "dds", &Compression::Compressed).unwrap();
    assert_eq!(request.path, "nodes/8/textures/0_0_1.bin.dds.gz");
    assert!(request.gzip);
    let request = archive.texture_request(&8, "0", "jpg", &Compression::Uncompressed).unwrap();
    assert_eq!(request.path, "nodes/8/textures/0.bin.jpg");
    assert!(!request.gzip);
    let request = service.texture_request(&8, "0_0_1", "dds", &Compression::Compressed).unwrap();
    assert_eq!(request.path, "layers/0/nodes/8/textures/0_0_1");
    assert!(!request.gzip);
}

#[test]
fn node_page_requests() {
    let (archive, service) = both(uri_scene(None, None));
    let request = archive.node_page_request(&12);
    assert_eq!(request.path, "nodepages/12.json.gz");
    assert!(request.gzip);
    let request = service.node_page_request(&12);
    assert_eq!(request.path, "layers/0/nodepages/12");
    assert!(!request.gzip);
    assert_eq!(SceneLayerPackage::node_page_request(&0).path, "nodepages/0.json.gz");
    assert_eq!(Service::node_page_request(&0).path, "layers/0/nodepages/0");
}

#[test]
fn scene_definition_requests() {
    let request = SceneLayerPackage::scene_definition_request();
    assert_eq!(request.path, "3dSceneLayer.json.gz");
    assert!(request.gzip);
    let request = Service::scene_definition_request();
    assert_eq!(request.path, "layers/0");
    assert!(!request.gzip);
}

#[test]
fn where_a_path_is_fetched_from() {
    let (archive, service) = both(uri_scene(None, None));
    assert_eq!(archive.locate("nodepages/12.json.gz"), "nodepages/12.json.gz");
    assert_eq!(
        service.locate("layers/0/nodepages/12"),
        "http://host/rest/SceneServer/layers/0/nodepages/12"
    );
}

#[test]
fn base_url_is_normalized() {
    assert_eq!(Service::normalize_base_url("http://host/x/SceneServer"), "http://host/x/SceneServer");
    assert_eq!(Service::normalize_base_url("http://host/x"), "http://host/x/SceneServer");
    assert_eq!(Service::normalize_base_url("http://host/x///"), "http://host/x/SceneServer");
    assert_eq!(
        Service::normalize_base_url("http://host/SceneServer/"),
        "http://host/SceneServer/SceneServer"
    );
    assert_eq!(Service::normalize_base_url(""), "/SceneServer");
    assert_eq!(Service::normalize_base_url("///"), "/SceneServer");
    let service = Service::connect("http://host/x/", uri_scene(None, None));
    assert_eq!(service.base_url, "http://host/x/SceneServer");
}

#[test]
fn response_by_status() {
    assert_eq!(Service::response("layers/0", 200, vec![1, 2]), Ok(vec![1, 2]));
    assert_eq!(Service::response("layers/0", 299, vec![]), Ok(vec![]));
    assert_eq!(
        Service::response("layers/0", 404, vec![1]),
        Err(I3SError::ResourceNotFound("layers/0: status 404".to_string()))
    );
    assert_eq!(
        Service::response("a", 199, vec![]),
        Err(I3SError::ResourceNotFound("a: status 199".to_string()))
    );
    assert_eq!(
        Service::response("a", 300, vec![]),
        Err(I3SError::ResourceNotFound("a: status 300".to_string()))
    );
}

#[test]
fn format_is_chosen_by_the_spelling_of_the_address() {
    assert_eq!(I3SFormat::from_uri("data/scene.slpk"), Ok(I3SFormat::SLPK));
    assert_eq!(I3SFormat::from_uri(".slpk"), Ok(I3SFormat::SLPK));
    assert_eq!(I3SFormat::from_uri("http://host/SceneServer"), Ok(I3SFormat::REST));
    assert_eq!(I3SFormat::from_uri("https://host/SceneServer"), Ok(I3SFormat::REST));
    assert_eq!(I3SFormat::from_uri("http://host/scene.slpk"), Ok(I3SFormat::SLPK));
    assert_eq!(
        I3SFormat::from_uri("ftp://host/scene"),
        Err(I3SError::InvalidUri("ftp://host/scene".to_string()))
    );
    assert_eq!(I3SFormat::from_uri("scene.SLPK"), Err(I3SError::InvalidUri("scene.SLPK".to_string())));
    assert_eq!(I3SFormat::from_uri(""), Err(I3SError::InvalidUri(String::new())));
}

#[test]
fn scene_layer_from_uri() {
    let layer = SceneLayer::from_uri("data/scene.slpk", uri_scene(None, None)).ok().unwrap();
    assert!(matches!(layer.manager, ResourceManager::SceneLayerPackage(_)));
    assert_eq!(layer.definition().name, "uris");
    let layer = SceneLayer::from_uri("http://host/a/", uri_scene(None, None)).ok().unwrap();
    match &layer.manager {
        ResourceManager::Service(service) => assert_eq!(service.base_url, "http://host/a/SceneServer"),
        ResourceManager::SceneLayerPackage(_) => panic!("a web address selects the service"),
    }
    match SceneLayer::from_uri("scene.zip", uri_scene(None, None)) {
        Err(e) => assert_eq!(e, I3SError::InvalidUri("scene.zip".to_string())),
        Ok(_) => panic!("the address names no backend"),
    }
}

#[test]
fn decimal_numerals() {
    for (n, expected) in [
        (0usize, "0"),
        (9, "9"),
        (10, "10"),
        (105, "105"),
        (12345, "12345"),
        (1_000_000, "1000000"),
    ] {
        let mut text = String::from("n=");
        append_decimal(&mut text, n);
        assert_eq!(text, format!("n={}", expected));
    }
    let mut text = String::new();
    append_decimal(&mut text, usize::MAX);
    assert_eq!(text, format!("{}", usize::MAX));
}

#[test]
fn prefixes_suffixes_and_trimming() {
    assert!(starts_with("http://x", "http"));
    assert!(!starts_with("htt", "http"));
    assert!(starts_with("abc", ""));
    assert!(ends_with("a.slpk", ".slpk"));
    assert!(!ends_with("slpk", ".slpk"));
    assert!(ends_with("é.slpk", ".slpk"));
    assert!(starts_with("éa", "é"));
    assert!(!ends_with("aé", "a"));
    assert!(same_text("draco", "draco"));
    assert!(!same_text("draco", "Draco"));
    assert_eq!(trim_end_matches("a/b//", '/'), "a/b");
    assert_eq!(trim_end_matches("a/b", '/'), "a/b");
    assert_eq!(trim_end_matches("//", '/'), "");
    assert_eq!(trim_end_matches("é/", '/'), "é");
}

#[test]
fn error_messages() {
    let detail = "x".to_string();
    assert_eq!(I3SError::DecompressionError(detail.clone()).message(), "Failed to decompress data: x");
    assert_eq!(I3SError::JsonParseError(detail.clone()).message(), "Failed to parse JSON: x");
    assert_eq!(I3SError::ResourceNotFound(detail.clone()).message(), "Resource not found: x");
    assert_eq!(I3SError::InvalidUri(detail.clone()).message(), "Invalid URI: x");
    assert_eq!(I3SError::Transport(detail.clone()).message(), "Transport failure: x");
    assert_eq!(I3SError::InvalidRequest(detail.clone()).message(), "Invalid request: x");
    assert_eq!(I3SError::Other(detail).message(), "Other error: x");
    assert_eq!(I3SError::invalid_request("no"), I3SError::InvalidRequest("no".to_string()));
}
