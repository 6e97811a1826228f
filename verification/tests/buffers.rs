use glam::Vec3;
use procmesh::{IndexExport, PIndices, PVertices};

fn indices_of(p: &PIndices<u32>) -> Vec<usize> {
    p.iter_usize()
}

#[test]
fn push_and_get_triangle_with_rotation() {
    let mut p: PIndices<u32> = PIndices::new();
    p.push(10, 20, 30);
    assert_eq!(p.len(), 3);
    assert_eq!(p.get_triangle(0, 0), (10, 20, 30));
    assert_eq!(p.get_triangle(0, 1), (20, 30, 10));
    assert_eq!(p.get_triangle(0, 2), (30, 10, 20));
}

#[test]
fn overwrite_replaces_one_slot_in_place() {
    let mut p: PIndices<u32> = PIndices::new();
    p.push(1, 2, 3);
    p.push(4, 5, 6);
    p.overwrite(0, 7, 8, 9);
    assert_eq!(indices_of(&p), vec![7, 8, 9, 4, 5, 6]);
}

#[test]
fn extend_appends_the_other_buffer() {
    let mut a: PIndices<u32> = PIndices::new();
    a.push(0, 1, 2);
    let mut b: PIndices<u32> = PIndices::new();
    b.push(3, 4, 5);
    a.extend(&b);
    assert_eq!(indices_of(&a), vec![0, 1, 2, 3, 4, 5]);
}

#[test]
fn map_rewrites_every_index() {
    let mut p: PIndices<u32> = PIndices::new();
    p.push(0, 1, 2);
    p.map(|i: u32| i + 10);
    assert_eq!(indices_of(&p), vec![10, 11, 12]);
}

#[test]
fn reversed_and_backfaces() {
    let mut p: PIndices<u32> = PIndices::new();
    p.push(0, 1, 2);
    assert_eq!(p.reversed().iter_usize(), vec![2, 1, 0]);
    p.add_backfaces();
    assert_eq!(indices_of(&p), vec![0, 1, 2, 2, 1, 0]);
}

#[test]
fn reset_to_interval_builds_the_identity_range() {
    let mut p: PIndices<u32> = PIndices::new();
    p.push(9, 9, 9);
    p.reset_to_interval(2, 6);
    assert_eq!(indices_of(&p), vec![2, 3, 4, 5]);
}

#[test]
fn list_to_strip_inserts_degenerate_bridges() {
    // each source triangle (a, b, c) becomes [a, a, b, c, c]
    let mut p: PIndices<u32> = PIndices::new();
    p.push(0, 1, 2);
    p.push(3, 4, 5);
    let strip = p.triangle_list_to_triangle_strip();
    assert_eq!(strip.iter_usize(), vec![0, 0, 1, 2, 2, 3, 3, 4, 5, 5]);
}

#[test]
fn strip_to_list_takes_every_window() {
    let mut p: PIndices<u32> = PIndices::new();
    p.push(0, 1, 2);
    p.push(3, 0, 0);
    let strip = p.triangle_strip_to_triangle_list();
    assert_eq!(
        strip.iter_usize(),
        vec![0, 1, 2, 1, 2, 3, 2, 3, 0, 3, 0, 0]
    );
}

#[test]
fn export_picks_the_narrowest_width() {
    let mut narrow: PIndices<u8> = PIndices::new();
    narrow.push(1, 2, 3);
    match narrow.export() {
        IndexExport::U16(v) => assert_eq!(v, vec![1u16, 2, 3]),
        IndexExport::U32(_) => panic!("an 8-bit index buffer must export as 16-bit"),
    }
    let mut wide: PIndices<u32> = PIndices::new();
    wide.push(1, 2, 3);
    match wide.export() {
        IndexExport::U16(_) => panic!("a 32-bit index buffer must export as 32-bit"),
        IndexExport::U32(v) => assert_eq!(v, vec![1u32, 2, 3]),
    }
}

#[test]
fn translate_moves_every_vertex() {
    let mut v = PVertices::build(vec![Vec3::new(1.0, 2.0, 3.0), Vec3::new(0.0, 0.0, 0.0)]);
    v.translate(Vec3::new(10.0, -1.0, 0.5));
    let out = v.get_vertices();
    assert_eq!(out[0], Vec3::new(11.0, 1.0, 3.5));
    assert_eq!(out[1], Vec3::new(10.0, -1.0, 0.5));
}

#[test]
fn scale_multiplies_componentwise() {
    let mut v = PVertices::build(vec![Vec3::new(1.0, 2.0, 3.0)]);
    v.scale(Vec3::new(2.0, 3.0, -1.0));
    assert_eq!(v.get_vertices()[0], Vec3::new(2.0, 6.0, -3.0));
}

#[test]
fn flip_yz_swaps_the_axes() {
    let mut v = PVertices::build(vec![Vec3::new(1.0, 2.0, 3.0)]);
    v.flip_yz();
    assert_eq!(v.get_vertices()[0], Vec3::new(1.0, 3.0, 2.0));
}

#[test]
fn flip_yz_twice_restores_the_buffer() {
    let points = vec![Vec3::new(1.0, 2.0, 3.0), Vec3::new(-0.5, 0.25, 4.0)];
    let mut v = PVertices::build(points.clone());
    v.flip_yz();
    v.flip_yz();
    assert_eq!(*v.get_vertices(), points);
}

#[test]
fn extrude_builds_two_rails_of_quads() {
    // an open polyline of three points, extruded upwards
    let points = vec![
        Vec3::new(0.0, 0.0, 0.0),
        Vec3::new(1.0, 0.0, 0.0),
        Vec3::new(2.0, 0.0, 0.0),
    ];
    let d = Vec3::new(0.0, 1.0, 0.0);
    let v = PVertices::build(points.clone());
    let mesh = v.extrude::<u32>(d);

    // 2 * n vertices: vertex 2k is point k, vertex 2k + 1 is point k moved
    // along the direction
    let out = mesh.get_vertices().get_vertices();
    assert_eq!(out.len(), 6);
    for k in 0..3 {
        assert_eq!(out[2 * k], points[k]);
        assert_eq!(out[2 * k + 1], points[k] + d);
    }

    // 6 * n indices forming n quads, wrapping modulo 2 * n
    let idx = mesh.get_indices().iter_usize();
    assert_eq!(idx.len(), 18);
    for k in 0..3 {
        let b = 2 * k;
        assert_eq!(
            &idx[6 * k..6 * k + 6],
            &[
                b % 6,
                (b + 1) % 6,
                (b + 3) % 6,
                b % 6,
                (b + 3) % 6,
                (b + 2) % 6
            ]
        );
    }
}
