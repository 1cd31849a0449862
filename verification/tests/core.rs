use pon_viewport::assets::{AssetData, AssetStore};
use pon_viewport::cache::TextureCache;
use pon_viewport::error::CompileError;
use pon_viewport::pon::{pon_eq, Pon};
use pon_viewport::pon_to_resource::{pon_to_mesh, pon_to_shader, pon_to_texture, Mesh, Texture};

fn typed(tag: &str, data: Pon) -> Pon {
    Pon::Typed { tag: tag.to_string(), data: Box::new(data) }
}

fn obj(fields: Vec<(&str, Pon)>) -> Pon {
    Pon::Object(fields.into_iter().map(|(k, v)| (k.to_string(), v)).collect())
}

fn ints(values: Vec<i64>) -> Pon {
    Pon::Array(values.into_iter().map(Pon::Integer).collect())
}

fn floats(values: Vec<f32>) -> Pon {
    Pon::Array(values.into_iter().map(|f| Pon::Float(f.to_bits())).collect())
}

fn static_texture(width: i64, height: i64, pixels: Vec<i64>) -> Pon {
    typed(
        "static_texture",
        obj(vec![
            ("pixels", ints(pixels)),
            ("width", Pon::Integer(width)),
            ("height", Pon::Integer(height)),
        ]),
    )
}

#[test]
fn static_texture_exact_rgba_buffer() {
    let assets = AssetStore::new();
    let node = static_texture(2, 1, vec![255, 0, 0, 255, 0, 255, 0, 255]);
    match pon_to_texture(&assets, &node) {
        Ok(Texture::Image { width, height, pixels }) => {
            assert_eq!(width, 2);
            assert_eq!(height, 1);
            assert_eq!(pixels, vec![255, 0, 0, 255, 0, 255, 0, 255]);
        },
        _ => panic!("expected an RGBA buffer"),
    }
}

#[test]
fn static_texture_size_mismatch_reports_both_sizes() {
    let assets = AssetStore::new();
    let node = static_texture(2, 1, vec![255, 0, 0, 255, 0, 255, 0]);
    match pon_to_texture(&assets, &node) {
        Err(CompileError::SizeMismatch { expected, actual }) => {
            assert_eq!(expected, 8);
            assert_eq!(actual, 7);
        },
        _ => panic!("expected a size mismatch"),
    }
}

#[test]
fn static_mesh_compiles_buffers() {
    let node = typed(
        "static_mesh",
        obj(vec![
            ("layout", Pon::Array(vec![Pon::Array(vec![
                Pon::Str("position".to_string()),
                Pon::Integer(3),
            ])])),
            ("vertices", floats(vec![0.0, 0.0, 0.0, 1.0, 0.0, 0.0, 0.0, 1.0, 0.0])),
            ("indices", ints(vec![0, 1, 2])),
        ]),
    );
    match pon_to_mesh(&node) {
        Ok(Mesh::Fixed { layout, vertex_data, element_data }) => {
            assert_eq!(layout, vec![("position".to_string(), 3usize)]);
            let expected: Vec<u32> =
                vec![0.0f32, 0.0, 0.0, 1.0, 0.0, 0.0, 0.0, 1.0, 0.0]
                    .into_iter()
                    .map(f32::to_bits)
                    .collect();
            assert_eq!(vertex_data, expected);
            assert_eq!(element_data, vec![0u32, 1, 2]);
        },
        _ => panic!("expected an explicit mesh"),
    }
}

#[test]
fn static_mesh_missing_field() {
    let node = typed("static_mesh", obj(vec![("vertices", floats(vec![]))]));
    match pon_to_mesh(&node) {
        Err(CompileError::MissingField(f)) => assert_eq!(f, "layout"),
        _ => panic!("expected a missing-field error"),
    }
}

#[test]
fn static_mesh_wrong_field_type() {
    let node = typed(
        "static_mesh",
        obj(vec![
            ("layout", Pon::Array(vec![])),
            ("vertices", ints(vec![1, 2])),
            ("indices", ints(vec![0])),
        ]),
    );
    match pon_to_mesh(&node) {
        Err(CompileError::WrongFieldType { field, .. }) => assert_eq!(field, "vertices"),
        _ => panic!("expected a wrong-field-type error"),
    }
}

#[test]
fn malformed_layout_entry() {
    let node = typed(
        "static_mesh",
        obj(vec![
            ("layout", Pon::Array(vec![Pon::Integer(3)])),
            ("vertices", floats(vec![])),
            ("indices", ints(vec![])),
        ]),
    );
    assert!(matches!(pon_to_mesh(&node), Err(CompileError::MalformedNestedValue)));
}

#[test]
fn unrecognized_mesh_tag() {
    let node = typed("bezier_mesh", obj(vec![]));
    match pon_to_mesh(&node) {
        Err(CompileError::UnrecognizedType(t)) => assert_eq!(t, "bezier_mesh"),
        _ => panic!("expected an unrecognized-type error"),
    }
}

#[test]
fn grid_mesh_default_layout() {
    let node = typed(
        "grid_mesh",
        obj(vec![
            ("n_vertices_width", Pon::Integer(2)),
            ("n_vertices_height", Pon::Integer(3)),
        ]),
    );
    match pon_to_mesh(&node) {
        Ok(Mesh::Grid { layout, n_vertices_width, n_vertices_height }) => {
            assert_eq!(n_vertices_width, 2);
            assert_eq!(n_vertices_height, 3);
            assert_eq!(
                layout,
                vec![
                    ("position".to_string(), 3usize),
                    ("texcoord".to_string(), 2usize),
                    ("normal".to_string(), 3usize),
                ]
            );
        },
        _ => panic!("expected a grid mesh"),
    }
}

#[test]
fn shader_program_inline_sources() {
    let assets = AssetStore::new();
    let node = typed(
        "shader_program",
        obj(vec![
            ("vertex", typed("static_shader", Pon::Str("X".to_string()))),
            ("fragment", typed("static_shader", Pon::Str("Y".to_string()))),
        ]),
    );
    let s = pon_to_shader(&assets, &node).unwrap();
    assert_eq!(s.vertex_src, "X");
    assert_eq!(s.fragment_src, "Y");
    assert_eq!(s.vertex_debug_source_name, "static_shader(X)");
    assert_eq!(s.fragment_debug_source_name, "static_shader(Y)");
}

#[test]
fn shader_from_file_reads_text_asset() {
    let mut assets = AssetStore::new();
    assets.add("a.glsl".to_string(), AssetData::Text("void main(){}".to_string()));
    let node = typed(
        "shader_program",
        obj(vec![
            ("vertex", typed("shader_from_file", Pon::Str("a.glsl".to_string()))),
            ("fragment", typed("static_shader", Pon::Str("Y".to_string()))),
        ]),
    );
    let s = pon_to_shader(&assets, &node).unwrap();
    assert_eq!(s.vertex_src, "void main(){}");
    assert_eq!(s.vertex_debug_source_name, "shader_from_file(a.glsl)");
}

#[test]
fn shader_from_file_missing_asset() {
    let assets = AssetStore::new();
    let node = typed(
        "shader_program",
        obj(vec![
            ("vertex", typed("shader_from_file", Pon::Str("gone.glsl".to_string()))),
            ("fragment", typed("static_shader", Pon::Str("Y".to_string()))),
        ]),
    );
    match pon_to_shader(&assets, &node) {
        Err(CompileError::AssetIoError { path, .. }) => assert_eq!(path, "gone.glsl"),
        _ => panic!("expected an asset io error"),
    }
}

#[test]
fn shader_stage_unrecognized_tag() {
    let assets = AssetStore::new();
    let node = typed(
        "shader_program",
        obj(vec![
            ("vertex", typed("shader_from_net", Pon::Str("a".to_string()))),
            ("fragment", typed("static_shader", Pon::Str("Y".to_string()))),
        ]),
    );
    match pon_to_shader(&assets, &node) {
        Err(CompileError::UnrecognizedType(t)) => assert_eq!(t, "shader_from_net"),
        _ => panic!("expected an unrecognized-type error"),
    }
}

fn le_bytes(v: u32) -> Vec<u8> {
    vec![
        (v & 0xff) as u8,
        ((v >> 8) & 0xff) as u8,
        ((v >> 16) & 0xff) as u8,
        ((v >> 24) & 0xff) as u8,
    ]
}

#[test]
fn height_map_parses_dimensions_and_samples() {
    let mut bytes = Vec::new();
    bytes.extend(le_bytes(2));
    bytes.extend(le_bytes(1));
    bytes.extend(le_bytes(1.0f32.to_bits()));
    bytes.extend(le_bytes(2.5f32.to_bits()));
    let mut assets = AssetStore::new();
    assets.add("h.dhm".to_string(), AssetData::Bytes(bytes));
    let node = typed("texture_from_file", Pon::Str("h.dhm".to_string()));
    match pon_to_texture(&assets, &node) {
        Ok(Texture::Floats { width, height, data }) => {
            assert_eq!(width, 2);
            assert_eq!(height, 1);
            assert_eq!(data, vec![1.0f32.to_bits(), 2.5f32.to_bits()]);
        },
        _ => panic!("expected a float texture"),
    }
}

#[test]
fn height_map_truncated_file() {
    let mut assets = AssetStore::new();
    assets.add("h.dhm".to_string(), AssetData::Bytes(vec![2, 0, 0]));
    let node = typed("texture_from_file", Pon::Str("h.dhm".to_string()));
    match pon_to_texture(&assets, &node) {
        Err(CompileError::AssetDecodeError { path, .. }) => assert_eq!(path, "h.dhm"),
        _ => panic!("expected a decode error"),
    }
}

#[test]
fn image_file_round_trip() {
    let img = image::RgbaImage::from_raw(1, 1, vec![10, 20, 30, 255]).unwrap();
    let mut buf = std::io::Cursor::new(Vec::new());
    img.write_to(&mut buf, image::ImageFormat::Png).unwrap();
    let mut assets = AssetStore::new();
    assets.add("t.png".to_string(), AssetData::Bytes(buf.into_inner()));
    let node = typed("texture_from_file", Pon::Str("t.png".to_string()));
    match pon_to_texture(&assets, &node) {
        Ok(Texture::Image { width, height, pixels }) => {
            assert_eq!(width, 1);
            assert_eq!(height, 1);
            assert_eq!(pixels, vec![10, 20, 30, 255]);
        },
        _ => panic!("expected a decoded image"),
    }
}

#[test]
fn image_file_bad_bytes() {
    let mut assets = AssetStore::new();
    assets.add("t.png".to_string(), AssetData::Bytes(vec![1, 2, 3, 4]));
    let node = typed("texture_from_file", Pon::Str("t.png".to_string()));
    match pon_to_texture(&assets, &node) {
        Err(CompileError::AssetDecodeError { path, .. }) => assert_eq!(path, "t.png"),
        _ => panic!("expected a decode error"),
    }
}

#[test]
fn structural_equality_is_deep() {
    let a = static_texture(1, 1, vec![1, 2, 3, 4]);
    let b = static_texture(1, 1, vec![1, 2, 3, 4]);
    let c = static_texture(1, 1, vec![1, 2, 3, 5]);
    assert!(pon_eq(&a, &b));
    assert!(!pon_eq(&a, &c));
}

#[test]
fn equal_keys_share_one_entry_without_recompiling() {
    let assets = AssetStore::new();
    let mut cache = TextureCache::new();
    let a = static_texture(1, 1, vec![1, 2, 3, 4]);
    let b = static_texture(1, 1, vec![1, 2, 3, 4]);
    let ha = cache.get(&assets, &a).unwrap();
    assert_eq!(cache.len(), 1);
    let hb = cache.get(&assets, &b).unwrap();
    assert_eq!(ha, hb);
    assert_eq!(cache.len(), 1);
}

#[test]
fn distinct_keys_compile_independently() {
    let assets = AssetStore::new();
    let mut cache = TextureCache::new();
    let a = static_texture(1, 1, vec![1, 2, 3, 4]);
    let b = static_texture(1, 1, vec![9, 9, 9, 9]);
    let ha = cache.get(&assets, &a).unwrap();
    let hb = cache.get(&assets, &b).unwrap();
    assert_ne!(ha, hb);
    assert_eq!(cache.len(), 2);
}

#[test]
fn failed_compile_is_not_sticky() {
    let mut assets = AssetStore::new();
    let mut cache = TextureCache::new();
    let key = typed("texture_from_file", Pon::Str("late.dhm".to_string()));
    assert!(cache.get(&assets, &key).is_err());
    assert_eq!(cache.len(), 0);
    let mut bytes = Vec::new();
    bytes.extend(le_bytes(1));
    bytes.extend(le_bytes(1));
    bytes.extend(le_bytes(3.0f32.to_bits()));
    assets.add("late.dhm".to_string(), AssetData::Bytes(bytes));
    let h = cache.get(&assets, &key).unwrap();
    assert_eq!(h, 0);
    assert_eq!(cache.len(), 1);
}

#[test]
fn error_kind_names() {
    let assets = AssetStore::new();
    let node = typed("bezier_mesh", obj(vec![]));
    let e = pon_to_mesh(&node).unwrap_err();
    assert_eq!(e.kind_name(), "unrecognized type");
    let too_short = static_texture(2, 1, vec![0; 7]);
    let e = pon_to_texture(&assets, &too_short).unwrap_err();
    assert_eq!(e.kind_name(), "size mismatch");
}


#[test]
fn indices_and_pixels_narrow_to_low_bits() {
    let node = typed(
        "static_mesh",
        obj(vec![
            ("layout", Pon::Array(vec![])),
            ("vertices", floats(vec![])),
            ("indices", ints(vec![4294967296 + 5, -1])),
        ]),
    );
    match pon_to_mesh(&node) {
        Ok(Mesh::Fixed { element_data, .. }) => {
            assert_eq!(element_data, vec![5u32, 4294967295]);
        },
        _ => panic!("expected an explicit mesh"),
    }
    let assets = AssetStore::new();
    let tex = static_texture(1, 1, vec![300, 256, -1, 255]);
    match pon_to_texture(&assets, &tex) {
        Ok(Texture::Image { pixels, .. }) => assert_eq!(pixels, vec![44u8, 0, 255, 255]),
        _ => panic!("expected an RGBA buffer"),
    }
}
