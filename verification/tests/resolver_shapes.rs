//! Resolver runs over further real crossing shapes, checked against the
//! index-validity invariant: every index stays strictly below the vertex
//! count, whatever the case analysis does.

use glam::Vec3;
use procmesh::{PMesh, PlaneGeometry, Topology, Triangle};

struct Geo {
    tol: f32,
}

fn tri_normal(t: &Triangle) -> Vec3 {
    (t.b - t.a).cross(t.c - t.a)
}

fn contains_point_tol(t: &Triangle, p: Vec3, tol: f32) -> bool {
    let v0 = t.c - t.a;
    let v1 = t.b - t.a;
    let v2 = p - t.a;

    let dot00 = v0.dot(v0);
    let dot01 = v0.dot(v1);
    let dot02 = v0.dot(v2);
    let dot11 = v1.dot(v1);
    let dot12 = v1.dot(v2);

    let inv_denom = 1.0 / (dot00 * dot11 - dot01 * dot01);
    let u = (dot11 * dot02 - dot01 * dot12) * inv_denom;
    let v = (dot00 * dot12 - dot01 * dot02) * inv_denom;

    (u >= -tol) && (v >= -tol) && (u + v <= 1.0 + tol)
}

impl PlaneGeometry for Geo {
    fn is_degenerate(&self, t: &Triangle) -> bool {
        tri_normal(t).length() < self.tol
    }

    fn is_coplanar(&self, t1: &Triangle, t2: &Triangle) -> bool {
        let tol = self.tol * 2.0;
        let n = tri_normal(t1);
        let d_val = -n.dot(t1.a);
        let on_plane = |vertex: Vec3| -> bool { n.dot(vertex) + d_val <= tol };
        on_plane(t2.a) && on_plane(t2.b) && on_plane(t2.c)
    }

    fn contains_triangle(&self, outer: &Triangle, inner: &Triangle) -> bool {
        let tol = self.tol * 2.0;
        contains_point_tol(outer, inner.a, tol)
            && contains_point_tol(outer, inner.b, tol)
            && contains_point_tol(outer, inner.c, tol)
    }

    fn contains_point(&self, t: &Triangle, p: Vec3) -> bool {
        contains_point_tol(t, p, self.tol)
    }

    fn same_winding_direction(&self, t1: &Triangle, t2: &Triangle) -> Option<bool> {
        let dot_product = tri_normal(t1).normalize().dot(tri_normal(t2).normalize());
        if (dot_product - 1.0).abs() < self.tol {
            Some(true)
        } else if (dot_product + 1.0).abs() < self.tol {
            Some(false)
        } else {
            None
        }
    }

    fn segment_intersection(&self, a: Vec3, b: Vec3, c: Vec3, d: Vec3) -> Option<Vec3> {
        let tol = self.tol;
        let tol2 = -self.tol;
        let p = a;
        let q = c;
        let r = b - a;
        let s = d - c;
        let rxs = r.cross(s);
        let q_p = q - p;

        if rxs.length_squared() < tol {
            return None;
        }

        let denominator = rxs.length_squared();
        let t = q_p.cross(s).dot(rxs) / denominator;
        let u = q_p.cross(r).dot(rxs) / denominator;

        if t >= -tol2 && t <= 1.0 + tol2 && u >= -tol2 && u <= 1.0 + tol2 {
            return Some(p + r * t);
        }
        None
    }
}

fn all_indices_valid(m: &PMesh<u32>) -> bool {
    let n = m.get_vertices().len();
    m.get_indices().iter_usize().iter().all(|&i| i < n)
}

#[test]
fn a_corner_poking_through_one_edge_is_rewritten() {
    // the second triangle's top corner pokes up through the first
    // triangle's bottom edge: both crossings lie on that one shared edge
    let mut m: PMesh<u32> = PMesh::build(
        vec![
            Vec3::new(0.0, 0.0, 0.0),
            Vec3::new(4.0, 0.0, 0.0),
            Vec3::new(0.0, 4.0, 0.0),
            Vec3::new(1.0, -1.0, 0.0),
            Vec3::new(3.0, -1.0, 0.0),
            Vec3::new(2.0, 1.0, 0.0),
        ],
        vec![0, 1, 2, 3, 4, 5],
        None,
    );
    let r = m.cut_complanar_edges(100, &Geo { tol: 0.0001 });
    assert!(r.is_ok());
    assert!(r.unwrap() >= 1);
    // the crossing points were inserted, and only whole triangles appended
    assert!(m.get_vertices().len() >= 8);
    assert_eq!(m.get_indices().len() % 3, 0);
    assert!(all_indices_valid(&m));
}

#[test]
fn four_crossings_with_one_interior_corner_are_rewritten() {
    // the second triangle crosses the first one four times; one of its
    // corners lies inside the first triangle
    let mut m: PMesh<u32> = PMesh::build(
        vec![
            Vec3::new(0.0, 0.0, 0.0),
            Vec3::new(4.0, 0.0, 0.0),
            Vec3::new(0.0, 4.0, 0.0),
            Vec3::new(0.5, 2.0, 0.0),
            Vec3::new(4.5, 2.0, 0.0),
            Vec3::new(2.0, -1.0, 0.0),
        ],
        vec![0, 1, 2, 3, 4, 5],
        None,
    );
    let r = m.cut_complanar_edges(100, &Geo { tol: 0.0001 });
    assert!(r.is_ok());
    assert!(r.unwrap() >= 1);
    assert!(m.get_vertices().len() >= 10);
    assert!(all_indices_valid(&m));
}

#[test]
fn indices_stay_valid_through_a_whole_pipeline() {
    let mut m: PMesh<u32> = PMesh::build(
        vec![
            Vec3::new(0.0, 0.0, 0.0),
            Vec3::new(4.0, 0.0, 0.0),
            Vec3::new(0.0, 4.0, 0.0),
        ],
        vec![0, 1, 2],
        None,
    );
    let mut other: PMesh<u32> = PMesh::build(
        vec![
            Vec3::new(1.0, 1.0, 0.0),
            Vec3::new(2.0, 1.0, 0.0),
            Vec3::new(1.0, 2.0, 0.0),
        ],
        vec![0, 1, 2],
        None,
    );
    other.translate(Vec3::new(0.25, 0.25, 0.0));
    m.extend(&other);
    assert!(all_indices_valid(&m));
    assert!(m.cut_complanar_edges(100, &Geo { tol: 0.0001 }).is_ok());
    assert!(all_indices_valid(&m));
    m.set_topology(Topology::TriangleStrip);
    assert!(all_indices_valid(&m));
    m.set_topology(Topology::TriangleList);
    assert!(all_indices_valid(&m));
    m.add_backfaces();
    assert!(all_indices_valid(&m));
    let eps = 0.0001f32;
    m.optimize(&|a: Vec3, b: Vec3| a.distance(b) < eps);
    assert!(all_indices_valid(&m));
    m.duplicate();
    assert!(all_indices_valid(&m));
}
