use model_parser::ept::{
    build_schema, hierarchy_document, hierarchy_file_name, tile_file_name, EptBuilder, EptSrs,
};
use model_parser::octree::OctreeKey;
use model_parser::tile::{attribute_flags, tile_contents, EptPointData, TilePoint};

fn bits(v: [f32; 3]) -> [u32; 3] {
    [v[0].to_bits(), v[1].to_bits(), v[2].to_bits()]
}

fn sample_points(n: usize, with_color: bool, with_normal: bool) -> Vec<TilePoint> {
    (0..n)
        .map(|i| TilePoint {
            position: bits([i as f32, 1.5, -2.0]),
            color: if with_color { Some([10, 20, 30]) } else { None },
            normal: if with_normal { Some(bits([0.0, 0.0, 1.0])) } else { None },
        })
        .collect()
}

#[test]
fn tile_length_with_colors_only() {
    let pts = sample_points(5, true, false);
    assert_eq!(tile_contents(&pts, true, false).len(), 5 * (12 + 3));
}

#[test]
fn tile_length_with_colors_and_normals() {
    let pts = sample_points(4, true, true);
    assert_eq!(tile_contents(&pts, true, true).len(), 4 * (12 + 3 + 12));
}

#[test]
fn tile_length_without_attributes() {
    let pts = sample_points(7, false, false);
    assert_eq!(tile_contents(&pts, false, false).len(), 7 * 12);
}

#[test]
fn empty_tile_is_zero_bytes() {
    let pts: Vec<TilePoint> = Vec::new();
    assert_eq!(tile_contents(&pts, true, true).len(), 0);
    assert_eq!(tile_contents(&pts, false, false).len(), 0);
}

#[test]
fn tile_record_layout() {
    let pts = vec![TilePoint {
        position: bits([1.0, -2.5, 3.25]),
        color: Some([255, 0, 128]),
        normal: Some(bits([0.0, 1.0, 0.0])),
    }];
    let bytes = tile_contents(&pts, true, true);
    let mut expected: Vec<u8> = Vec::new();
    for v in [1.0f32, -2.5, 3.25] {
        expected.extend_from_slice(&v.to_le_bytes());
    }
    expected.extend_from_slice(&[255, 0, 128]);
    for v in [0.0f32, 1.0, 0.0] {
        expected.extend_from_slice(&v.to_le_bytes());
    }
    assert_eq!(bytes, expected);
}

#[test]
fn missing_attributes_get_defaults() {
    let pts = vec![TilePoint { position: bits([0.0, 0.0, 0.0]), color: None, normal: None }];
    let bytes = tile_contents(&pts, true, true);
    assert_eq!(bytes.len(), 27);
    assert_eq!(&bytes[12..15], &[255, 255, 255]);
    assert!(bytes[15..27].iter().all(|b| *b == 0));
}

#[test]
fn columns_only_for_present_attributes() {
    let pts = sample_points(3, true, true);
    let d = EptPointData::from_points(&pts, false, true);
    assert_eq!(d.positions.len(), 3);
    assert!(d.colors.is_none());
    assert_eq!(d.normals.as_ref().map(|n| n.len()), Some(3));
    assert_eq!(d.encode().len(), 3 * 24);
}

#[test]
fn flags_are_true_if_any_point_has_attribute() {
    let mut pts = sample_points(3, false, false);
    assert_eq!(attribute_flags(&pts), (false, false));
    pts[1].color = Some([1, 2, 3]);
    assert_eq!(attribute_flags(&pts), (false, true));
    pts[2].normal = Some(bits([1.0, 0.0, 0.0]));
    assert_eq!(attribute_flags(&pts), (true, true));
    assert_eq!(attribute_flags(&Vec::new()), (false, false));
}

#[test]
fn schema_order_with_all_attributes() {
    let s = build_schema(true, true);
    let names: Vec<&str> = s.iter().map(|d| d.name.as_str()).collect();
    assert_eq!(
        names,
        vec!["X", "Y", "Z", "Red", "Green", "Blue", "NormalX", "NormalY", "NormalZ"]
    );
    assert_eq!(s[3].data_type, "unsigned");
    assert_eq!(s[3].size, 1);
    assert_eq!(s[8].data_type, "floating");
    assert_eq!(s[8].size, 4);
    let total: u32 = s.iter().map(|d| d.size).sum();
    assert_eq!(total, 27);
}

#[test]
fn schema_without_attributes_is_xyz() {
    let s = build_schema(false, false);
    assert_eq!(s.len(), 3);
    assert_eq!(s[0].name, "X");
    assert_eq!(s[2].name, "Z");
    let n = build_schema(false, true);
    assert_eq!(n.len(), 6);
    assert_eq!(n[3].name, "NormalX");
    let c = build_schema(true, false);
    assert_eq!(c.len(), 6);
    assert_eq!(c[5].name, "Blue");
}

#[test]
fn srs_is_earth_centered() {
    let s = EptSrs::earth_centered();
    assert_eq!(s.authority, "EPSG");
    assert_eq!(s.horizontal, "4978");
    assert_eq!(s.vertical, "");
    assert_eq!(s.wkt, "");
}

#[test]
fn hierarchy_of_empty_cloud() {
    let doc = hierarchy_document(0).unwrap();
    assert_eq!(doc, "{\n  \"0-0-0-0\": 0\n}");
}

#[test]
fn hierarchy_counts_all_points() {
    let doc = hierarchy_document(1234).unwrap();
    assert_eq!(doc, "{\n  \"0-0-0-0\": 1234\n}");
}

#[test]
fn file_names_of_root() {
    let r = OctreeKey::root();
    assert_eq!(tile_file_name(&r), "0-0-0-0.bin");
    assert_eq!(hierarchy_file_name(&r), "0-0-0-0.json");
}

#[test]
fn builder_settings() {
    let b = EptBuilder::new();
    assert_eq!(b.max_points_per_tile(), 100_000);
    assert_eq!(b.max_depth(), 10);
    let b = b.with_max_points_per_tile(50).with_max_depth(3);
    assert_eq!(b.max_points_per_tile(), 50);
    assert_eq!(b.max_depth(), 3);
}

#[test]
fn default_builder_matches_new() {
    let b = EptBuilder::default();
    assert_eq!(b.max_points_per_tile(), 100_000);
    assert_eq!(b.max_depth(), 10);
}
