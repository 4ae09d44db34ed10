use model_parser::octree::OctreeKey;

#[test]
fn root_key_is_all_zero() {
    let r = OctreeKey::root();
    assert_eq!(r, OctreeKey::new(0, 0, 0, 0));
    assert_eq!(r.to_path_string(), "0-0-0-0");
}

#[test]
fn children_of_one_two_three() {
    let k = OctreeKey::new(1, 2, 3, 3);
    let c = k.children();
    let expected = [
        (4, 6, 6),
        (5, 6, 6),
        (4, 7, 6),
        (5, 7, 6),
        (4, 6, 7),
        (5, 6, 7),
        (4, 7, 7),
        (5, 7, 7),
    ];
    for (i, (x, y, z)) in expected.iter().enumerate() {
        assert_eq!(c[i], OctreeKey::new(2, *x, *y, *z));
    }
    for k in c.iter() {
        assert_eq!(k.depth, 2);
        assert!(k.x == 4 || k.x == 5);
        assert!(k.y == 6 || k.y == 7);
        assert!(k.z == 6 || k.z == 7);
    }
}

#[test]
fn children_of_root() {
    let c = OctreeKey::root().children();
    assert_eq!(c[0], OctreeKey::new(1, 0, 0, 0));
    assert_eq!(c[7], OctreeKey::new(1, 1, 1, 1));
    assert_eq!(c[6], OctreeKey::new(1, 0, 1, 1));
}

#[test]
fn path_string_of_multi_digit_key() {
    assert_eq!(OctreeKey::new(12, 305, 0, 4294967295).to_path_string(), "12-305-0-4294967295");
    assert_eq!(OctreeKey::new(2, 4, 6, 7).to_path_string(), "2-4-6-7");
}
