use pon_viewport::assets::{AssetData, AssetStore};
use pon_viewport::pon::Pon;
use pon_viewport::viewport::{PropRef, PropertyStore, ViewportSubSystem};

fn typed(tag: &str, data: Pon) -> Pon {
    Pon::Typed { tag: tag.to_string(), data: Box::new(data) }
}

fn obj(fields: Vec<(&str, Pon)>) -> Pon {
    Pon::Object(fields.into_iter().map(|(k, v)| (k.to_string(), v)).collect())
}

fn mesh_descriptor() -> Pon {
    typed(
        "static_mesh",
        obj(vec![
            ("layout", Pon::Array(vec![Pon::Array(vec![
                Pon::Str("position".to_string()),
                Pon::Integer(3),
            ])])),
            ("vertices", Pon::Array(vec![
                Pon::Float(0.0f32.to_bits()),
                Pon::Float(0.0f32.to_bits()),
                Pon::Float(0.0f32.to_bits()),
            ])),
            ("indices", Pon::Array(vec![Pon::Integer(0)])),
        ]),
    )
}

fn diffuse_descriptor(level: i64) -> Pon {
    typed(
        "static_texture",
        obj(vec![
            ("pixels", Pon::Array(vec![
                Pon::Integer(level),
                Pon::Integer(0),
                Pon::Integer(0),
                Pon::Integer(255),
            ])),
            ("width", Pon::Integer(1)),
            ("height", Pon::Integer(1)),
        ]),
    )
}

fn subsystem() -> ViewportSubSystem {
    ViewportSubSystem::new("vs".to_string(), "fs".to_string())
}

fn changes(list: Vec<(u64, &str)>) -> Vec<PropRef> {
    list.into_iter()
        .map(|(entity_id, key)| PropRef { entity_id, property_key: key.to_string() })
        .collect()
}

#[test]
fn first_build_creates_one_node() {
    let assets = AssetStore::new();
    let mut store = PropertyStore::new();
    store.set_property(7, "mesh".to_string(), mesh_descriptor());
    store.set_property(7, "diffuse".to_string(), diffuse_descriptor(255));
    let mut vp = subsystem();
    vp.on_property_value_change(&assets, &store, &changes(vec![(7, "mesh")]));
    assert_eq!(vp.renderer.nodes.len(), 1);
    let node = &vp.renderer.nodes[0];
    assert_eq!(node.id, 7);
    // the entity names no shader, so it resolves to the seeded baseline
    assert_eq!(node.shader, 0);
    assert_eq!(node.textures.len(), 1);
    assert_eq!(node.textures[0].0, "diffuse");
    assert!(!node.alpha);
    assert!(node.transform.is_none());
}

#[test]
fn several_structural_changes_rebuild_once() {
    let assets = AssetStore::new();
    let mut store = PropertyStore::new();
    store.set_property(7, "mesh".to_string(), mesh_descriptor());
    store.set_property(7, "diffuse".to_string(), diffuse_descriptor(255));
    let mut vp = subsystem();
    vp.on_property_value_change(
        &assets,
        &store,
        &changes(vec![(7, "mesh"), (7, "diffuse"), (7, "alpha")]),
    );
    assert_eq!(vp.renderer.nodes.len(), 1);
}

#[test]
fn alpha_change_discards_and_rebuilds() {
    let assets = AssetStore::new();
    let mut store = PropertyStore::new();
    store.set_property(7, "mesh".to_string(), mesh_descriptor());
    store.set_property(7, "diffuse".to_string(), diffuse_descriptor(255));
    let mut vp = subsystem();
    vp.on_property_value_change(&assets, &store, &changes(vec![(7, "mesh")]));
    assert!(!vp.renderer.nodes[0].alpha);

    store.set_property(7, "alpha".to_string(), Pon::Boolean(true));
    vp.on_property_value_change(&assets, &store, &changes(vec![(7, "alpha")]));
    assert_eq!(vp.renderer.nodes.len(), 1);
    assert!(vp.renderer.nodes[0].alpha);
    // the rebuilt node shares the cached resources: no new cache entries
    assert_eq!(vp.resources.shader_programs.len(), 1);
    assert_eq!(vp.resources.vertex_arrays.len(), 1);
    assert_eq!(vp.resources.textures.len(), 1);
}

#[test]
fn transform_change_patches_in_place() {
    let assets = AssetStore::new();
    let mut store = PropertyStore::new();
    store.set_property(7, "mesh".to_string(), mesh_descriptor());
    store.set_property(7, "diffuse".to_string(), diffuse_descriptor(255));
    let mut vp = subsystem();
    vp.on_property_value_change(&assets, &store, &changes(vec![(7, "mesh")]));
    let shader_before = vp.renderer.nodes[0].shader;
    let va_before = vp.renderer.nodes[0].vertex_array;
    let tex_before = vp.renderer.nodes[0].textures.clone();

    let t = typed("translate", obj(vec![("x", Pon::Integer(4))]));
    store.set_property(7, "transformed".to_string(), t);
    vp.on_property_value_change(&assets, &store, &changes(vec![(7, "transformed")]));

    assert_eq!(vp.renderer.nodes.len(), 1);
    let node = &vp.renderer.nodes[0];
    assert_eq!(node.shader, shader_before);
    assert_eq!(node.vertex_array, va_before);
    assert_eq!(node.textures, tex_before);
    assert!(node.transform.is_some());
    // the caches saw no new work
    assert_eq!(vp.resources.shader_programs.len(), 1);
    assert_eq!(vp.resources.vertex_arrays.len(), 1);
    assert_eq!(vp.resources.textures.len(), 1);
}

#[test]
fn transform_change_without_node_is_a_no_op() {
    let assets = AssetStore::new();
    let mut store = PropertyStore::new();
    store.set_property(9, "transformed".to_string(), Pon::Integer(1));
    let mut vp = subsystem();
    vp.on_property_value_change(&assets, &store, &changes(vec![(9, "transformed")]));
    assert_eq!(vp.renderer.nodes.len(), 0);
}

#[test]
fn mesh_without_textures_or_diffuse_is_silently_not_rendered() {
    let assets = AssetStore::new();
    let mut store = PropertyStore::new();
    store.set_property(7, "mesh".to_string(), mesh_descriptor());
    let mut vp = subsystem();
    vp.on_property_value_change(&assets, &store, &changes(vec![(7, "mesh")]));
    assert_eq!(vp.renderer.nodes.len(), 0);
    assert_eq!(vp.resources.shader_programs.len(), 1);
    assert_eq!(vp.resources.vertex_arrays.len(), 0);
    assert_eq!(vp.resources.textures.len(), 0);
}

#[test]
fn two_entities_share_identical_descriptors() {
    let assets = AssetStore::new();
    let mut store = PropertyStore::new();
    store.set_property(1, "mesh".to_string(), mesh_descriptor());
    store.set_property(1, "diffuse".to_string(), diffuse_descriptor(255));
    store.set_property(2, "mesh".to_string(), mesh_descriptor());
    store.set_property(2, "diffuse".to_string(), diffuse_descriptor(255));
    let mut vp = subsystem();
    vp.on_property_value_change(&assets, &store, &changes(vec![(1, "mesh"), (2, "mesh")]));
    assert_eq!(vp.renderer.nodes.len(), 2);
    // identical specifications resolve to the same shared resources
    assert_eq!(vp.renderer.nodes[0].vertex_array, vp.renderer.nodes[1].vertex_array);
    assert_eq!(vp.renderer.nodes[0].textures, vp.renderer.nodes[1].textures);
    assert_eq!(vp.resources.vertex_arrays.len(), 1);
    assert_eq!(vp.resources.textures.len(), 1);
}

#[test]
fn camera_change_sets_camera() {
    let assets = AssetStore::new();
    let mut store = PropertyStore::new();
    store.set_property(3, "camera".to_string(), typed("lookat", obj(vec![])));
    let mut vp = subsystem();
    assert!(vp.renderer.camera.is_none());
    vp.on_property_value_change(&assets, &store, &changes(vec![(3, "camera")]));
    assert!(vp.renderer.camera.is_some());
}

#[test]
fn failed_entity_is_not_rendered_and_retry_succeeds() {
    let mut assets = AssetStore::new();
    let mut store = PropertyStore::new();
    store.set_property(7, "mesh".to_string(), mesh_descriptor());
    store.set_property(
        7,
        "diffuse".to_string(),
        typed("texture_from_file", Pon::Str("missing.png".to_string())),
    );
    let mut vp = subsystem();
    vp.on_property_value_change(&assets, &store, &changes(vec![(7, "mesh")]));
    assert_eq!(vp.renderer.nodes.len(), 0);

    let img = image::RgbaImage::from_raw(1, 1, vec![1, 2, 3, 4]).unwrap();
    let mut buf = std::io::Cursor::new(Vec::new());
    img.write_to(&mut buf, image::ImageFormat::Png).unwrap();
    assets.add("missing.png".to_string(), AssetData::Bytes(buf.into_inner()));
    vp.on_property_value_change(&assets, &store, &changes(vec![(7, "mesh")]));
    assert_eq!(vp.renderer.nodes.len(), 1);
}
