use cubegame::models::cube;
use cubegame::models::object::{Normal, Object, Vertex};

fn positions(o: &Object) -> Vec<(i64, i64, i64)> {
    o.vertices.iter().map(|v| v.position).collect()
}

#[test]
fn cube_at_origin_has_corners_at_plus_minus_size() {
    let o = cube::new([0, 0, 0]);
    assert_eq!(
        positions(&o),
        vec![
            (10, 10, 10),
            (10, 10, -10),
            (10, -10, 10),
            (10, -10, -10),
            (-10, 10, 10),
            (-10, 10, -10),
            (-10, -10, 10),
            (-10, -10, -10),
        ]
    );
}

#[test]
fn cube_corners_follow_the_centre() {
    let o = cube::new([100, -3, 7]);
    assert_eq!(o.vertices[0].position, (110, 7, 17));
    assert_eq!(o.vertices[7].position, (90, -13, -3));
    assert_eq!(o.vertices[5].position, (90, 7, -3));
}

#[test]
fn cube_index_table_is_fixed() {
    let o = cube::new([5, 5, 5]);
    assert_eq!(
        o.indices,
        vec![
            0, 1, 2, 1, 2, 3, 0, 1, 4, 1, 4, 5, 4, 5, 6, 5, 6, 7, 2, 3, 6, 3, 6, 7, 0, 2, 4, 2, 4, 6,
            1, 3, 5, 3, 5, 7,
        ]
    );
    assert_eq!(cube::indices().len(), 36);
}

#[test]
fn cube_normal_table_is_fixed() {
    let o = cube::new([0, 0, 0]);
    let n: Vec<(i64, i64, i64)> = o.normals.iter().map(|n| n.normal).collect();
    assert_eq!(
        n,
        vec![
            (0, 0, 1),
            (0, 0, -1),
            (1, 0, 0),
            (-1, 0, 0),
            (0, 1, 0),
            (0, -1, 0),
            (1, 1, 1),
            (1, 1, -1),
            (1, -1, 1),
            (1, -1, -1),
            (-1, 1, 1),
            (-1, 1, -1),
        ]
    );
}

#[test]
fn cube_at_the_largest_centre() {
    let o = cube::new([i64::MAX - 10, i64::MIN + 10, 0]);
    assert_eq!(o.vertices[0].position, (i64::MAX, i64::MIN + 20, 10));
    assert_eq!(o.vertices[7].position, (i64::MAX - 20, i64::MIN, -10));
}

#[test]
fn object_new_keeps_tables() {
    let o = Object::new(
        vec![Vertex { position: (1, 2, 3) }],
        vec![Normal { normal: (0, 1, 0) }],
        vec![0, 0, 0],
    );
    assert_eq!(o.vertices[0].position, (1, 2, 3));
    assert_eq!(o.normals[0].normal, (0, 1, 0));
    assert_eq!(o.indices, vec![0, 0, 0]);
}

#[test]
fn duplicate_copies_every_table() {
    let o = cube::new([40, 0, -20]);
    let d = o.duplicate();
    assert_eq!(positions(&d), positions(&o));
    assert_eq!(d.indices, o.indices);
    assert_eq!(d.normals.len(), 12);
    assert_eq!(d.normals[11].normal, (-1, 1, -1));
}
