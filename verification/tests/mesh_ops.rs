use glam::{Vec2, Vec3};
use procmesh::{PMesh, Topology};

fn square() -> PMesh<u32> {
    // two triangles over four corners, with UVs
    PMesh::build(
        vec![
            Vec3::new(0.0, 0.0, 0.0),
            Vec3::new(1.0, 0.0, 0.0),
            Vec3::new(1.0, 1.0, 0.0),
            Vec3::new(0.0, 1.0, 0.0),
        ],
        vec![0, 1, 2, 0, 2, 3],
        Some(vec![
            Vec2::new(0.0, 0.0),
            Vec2::new(1.0, 0.0),
            Vec2::new(1.0, 1.0),
            Vec2::new(0.0, 1.0),
        ]),
    )
}

#[test]
fn append_concatenates_and_rebases() {
    let mut a = square();
    let b = square();
    a.extend(&b);
    // |V| = |V_A| + |V_B| and |I| = |I_A| + |I_B|
    assert_eq!(a.get_vertices().len(), 8);
    let idx = a.get_indices().iter_usize();
    assert_eq!(idx.len(), 12);
    // every index from B is offset by exactly |V_A|
    assert_eq!(&idx[..6], &[0, 1, 2, 0, 2, 3]);
    assert_eq!(&idx[6..], &[4, 5, 6, 4, 6, 7]);
    // both sides carried UVs, so the result keeps them
    assert_eq!(a.get_uv().unwrap().len(), 8);
}

#[test]
fn append_without_uv_drops_uv() {
    let mut a = square();
    let mut b = square();
    b.set_uv(None);
    a.extend(&b);
    assert!(a.get_uv().is_none());
}

#[test]
fn append_converts_topology_first() {
    let mut a = square();
    let mut b = square();
    b.set_topology(Topology::TriangleStrip);
    a.extend(&b);
    assert_eq!(a.get_topology(), Topology::TriangleList);
    // B's strip of 10 indices becomes 8 windows of 3, re-based by 4
    let idx = a.get_indices().iter_usize();
    assert_eq!(idx.len(), 6 + 24);
    assert!(idx[6..].iter().all(|&i| i >= 4 && i < 8));
}

#[test]
fn topology_round_trip_is_not_relied_on() {
    // list -> strip follows the documented bridging pattern; the way back is
    // NOT expected to reproduce the original triangle set one-for-one
    let mut m = square();
    m.set_topology(Topology::TriangleStrip);
    assert_eq!(
        m.get_indices().iter_usize(),
        vec![0, 0, 1, 2, 2, 0, 0, 2, 3, 3]
    );
    m.set_topology(Topology::TriangleList);
    // every window of the strip appears, bridges included
    assert_eq!(m.get_indices().len(), 24);
}

#[test]
fn duplicate_gives_every_index_its_own_vertex() {
    let mut m = square();
    m.duplicate();
    assert_eq!(m.get_vertices().len(), 6);
    assert_eq!(m.get_indices().iter_usize(), vec![0, 1, 2, 3, 4, 5]);
    // slot 3 was index 0: the corner at the origin, copied
    assert_eq!(m.get_vertices().get_vertices()[3], Vec3::new(0.0, 0.0, 0.0));
    assert_eq!(m.get_uv().unwrap().len(), 6);
}

#[test]
fn optimize_merges_nearby_vertices() {
    let mut m: PMesh<u32> = PMesh::build(
        vec![
            Vec3::new(0.0, 0.0, 0.0),
            Vec3::new(1.0, 0.0, 0.0),
            Vec3::new(0.0, 1.0, 0.0),
            // within merge distance of the first vertex
            Vec3::new(0.00001, 0.0, 0.0),
            Vec3::new(1.0, 0.0, 0.0),
            Vec3::new(0.0, -1.0, 0.0),
        ],
        vec![0, 1, 2, 3, 4, 5],
        None,
    );
    let eps = 0.0001f32;
    m.optimize(&|a: Vec3, b: Vec3| a.distance(b) < eps);
    assert_eq!(m.get_vertices().len(), 4);
    assert_eq!(m.get_indices().iter_usize(), vec![0, 1, 2, 0, 1, 3]);
}

#[test]
fn fan_triangulates_around_the_first_vertex() {
    let m: PMesh<u32> = PMesh::fan(
        vec![
            Vec3::new(0.0, 0.0, 0.0),
            Vec3::new(1.0, 0.0, 0.0),
            Vec3::new(1.0, 1.0, 0.0),
            Vec3::new(0.0, 1.0, 0.0),
        ],
        None,
    );
    assert_eq!(m.get_indices().iter_usize(), vec![0, 1, 2, 0, 2, 3]);
}

#[test]
fn fan_of_fewer_than_three_vertices_is_empty() {
    let m: PMesh<u32> = PMesh::fan(vec![Vec3::new(0.0, 0.0, 0.0), Vec3::new(1.0, 0.0, 0.0)], None);
    assert_eq!(m.get_vertices().len(), 0);
    assert_eq!(m.get_indices().len(), 0);
}

#[test]
fn flat_normals_of_a_counter_clockwise_triangle_point_up() {
    let mut m: PMesh<u32> = PMesh::build(
        vec![
            Vec3::new(0.0, 0.0, 0.0),
            Vec3::new(1.0, 0.0, 0.0),
            Vec3::new(0.0, 1.0, 0.0),
        ],
        vec![0, 1, 2],
        None,
    );
    m.flat_normals();
    let normals = m.get_normals().unwrap();
    assert_eq!(normals.len(), 3);
    for n in normals {
        assert!((*n - Vec3::new(0.0, 0.0, 1.0)).length() < 1e-6);
    }
}

#[test]
fn mesh_add_backfaces_reverses_winding() {
    let mut m: PMesh<u32> = PMesh::build(
        vec![
            Vec3::new(0.0, 0.0, 0.0),
            Vec3::new(1.0, 0.0, 0.0),
            Vec3::new(0.0, 1.0, 0.0),
        ],
        vec![0, 1, 2],
        None,
    );
    m.add_backfaces();
    assert_eq!(m.get_indices().iter_usize(), vec![0, 1, 2, 2, 1, 0]);
}

#[test]
fn translate_then_scale_composes_on_the_mesh() {
    let mut m = square();
    m.translate(Vec3::new(1.0, 0.0, 0.0));
    m.scale(Vec3::new(2.0, 2.0, 2.0));
    assert_eq!(m.get_vertices().get_vertices()[0], Vec3::new(2.0, 0.0, 0.0));
    assert_eq!(m.get_vertices().get_vertices()[2], Vec3::new(4.0, 2.0, 0.0));
}
