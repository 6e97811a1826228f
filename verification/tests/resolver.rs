use glam::Vec3;
use procmesh::{PMesh, PlaneGeometry, Triangle};

/// The tolerant geometric tests of the resolver, over single-precision
/// positions, with one base tolerance.
struct Geo {
    tol: f32,
}

fn normal(t: &Triangle) -> Vec3 {
    (t.b - t.a).cross(t.c - t.a)
}

fn contains_point_tol(t: &Triangle, p: Vec3, tol: f32) -> bool {
    let v0 = t.c - t.a;
    let v1 = t.b - t.a;
    let v2 = p - t.a;

    let dot00 = v0.dot(v0);
    let dot01 = v0.dot(v1);
    let dot02 = v0.dot(v2);
    let dot11 = v1.dot(v1);
    let dot12 = v1.dot(v2);

    let inv_denom = 1.0 / (dot00 * dot11 - dot01 * dot01);
    let u = (dot11 * dot02 - dot01 * dot12) * inv_denom;
    let v = (dot00 * dot12 - dot01 * dot02) * inv_denom;

    (u >= -tol) && (v >= -tol) && (u + v <= 1.0 + tol)
}

impl PlaneGeometry for Geo {
    fn is_degenerate(&self, t: &Triangle) -> bool {
        normal(t).length() < self.tol
    }

    fn is_coplanar(&self, t1: &Triangle, t2: &Triangle) -> bool {
        let tol = self.tol * 2.0;
        let n = normal(t1);
        let d_val = -n.dot(t1.a);
        let on_plane = |vertex: Vec3| -> bool { n.dot(vertex) + d_val <= tol };
        on_plane(t2.a) && on_plane(t2.b) && on_plane(t2.c)
    }

    fn contains_triangle(&self, outer: &Triangle, inner: &Triangle) -> bool {
        let tol = self.tol * 2.0;
        contains_point_tol(outer, inner.a, tol)
            && contains_point_tol(outer, inner.b, tol)
            && contains_point_tol(outer, inner.c, tol)
    }

    fn contains_point(&self, t: &Triangle, p: Vec3) -> bool {
        contains_point_tol(t, p, self.tol)
    }

    fn same_winding_direction(&self, t1: &Triangle, t2: &Triangle) -> Option<bool> {
        let dot_product = normal(t1).normalize().dot(normal(t2).normalize());
        if (dot_product - 1.0).abs() < self.tol {
            Some(true)
        } else if (dot_product + 1.0).abs() < self.tol {
            Some(false)
        } else {
            None
        }
    }

    fn segment_intersection(&self, a: Vec3, b: Vec3, c: Vec3, d: Vec3) -> Option<Vec3> {
        let tol = self.tol;
        let tol2 = -self.tol;
        let p = a;
        let q = c;
        let r = b - a;
        let s = d - c;
        let rxs = r.cross(s);
        let q_p = q - p;

        if rxs.length_squared() < tol {
            // parallel; collinear overlap is not specially handled
            return None;
        }

        let denominator = rxs.length_squared();
        let t = q_p.cross(s).dot(rxs) / denominator;
        let u = q_p.cross(r).dot(rxs) / denominator;

        if t >= -tol2 && t <= 1.0 + tol2 && u >= -tol2 && u <= 1.0 + tol2 {
            return Some(p + r * t);
        }
        None
    }
}

fn geo() -> Geo {
    Geo { tol: 0.0001 }
}

#[test]
fn containment_deletion_zeroes_the_inner_triangle() {
    // triangle2 lies fully inside triangle1, same plane, no shared vertices
    let mut m: PMesh<u32> = PMesh::build(
        vec![
            Vec3::new(0.0, 0.0, 0.0),
            Vec3::new(4.0, 0.0, 0.0),
            Vec3::new(0.0, 4.0, 0.0),
            Vec3::new(1.0, 1.0, 0.0),
            Vec3::new(2.0, 1.0, 0.0),
            Vec3::new(1.0, 2.0, 0.0),
        ],
        vec![0, 1, 2, 3, 4, 5],
        None,
    );
    let r = m.cut_complanar_edges(10, &geo());
    assert!(r.is_ok());
    let idx = m.get_indices().iter_usize();
    // triangle1 is untouched
    assert_eq!(&idx[..3], &[0, 1, 2]);
    // triangle2's slot is soft-deleted: all three indices the same value
    assert_eq!(idx[3], idx[4]);
    assert_eq!(idx[4], idx[5]);
    // nothing was inserted
    assert_eq!(m.get_vertices().len(), 6);
}

#[test]
fn degenerate_triangles_are_skipped() {
    // a triangle with three collinear points is never chosen for
    // intersection testing and inserts no vertices
    let mut m: PMesh<u32> = PMesh::build(
        vec![
            Vec3::new(0.0, 0.0, 0.0),
            Vec3::new(1.0, 0.0, 0.0),
            Vec3::new(2.0, 0.0, 0.0),
            Vec3::new(0.5, -1.0, 0.0),
            Vec3::new(1.5, -1.0, 0.0),
            Vec3::new(1.0, 1.0, 0.0),
        ],
        vec![0, 1, 2, 3, 4, 5],
        None,
    );
    let r = m.cut_complanar_edges(10, &geo());
    assert_eq!(r, Ok(0));
    assert_eq!(m.get_vertices().len(), 6);
    assert_eq!(m.get_indices().iter_usize(), vec![0, 1, 2, 3, 4, 5]);
}

/// Two triangles whose corners poke into each other: their edges cross
/// exactly twice, on distinct edges of both.
fn crossing_pair(offset: f32) -> Vec<Vec3> {
    vec![
        // pointing up
        Vec3::new(offset + 0.0, 0.0, 0.0),
        Vec3::new(offset + 4.0, 0.0, 0.0),
        Vec3::new(offset + 2.0, 3.0, 0.0),
        // pointing down, overlapping the first one's top corner
        Vec3::new(offset + 0.0, 4.0, 0.0),
        Vec3::new(offset + 4.0, 4.0, 0.0),
        Vec3::new(offset + 2.0, 1.0, 0.0),
    ]
}

#[test]
fn one_crossing_pair_resolves_in_one_change() {
    let mut m: PMesh<u32> = PMesh::build(crossing_pair(0.0), vec![0, 1, 2, 3, 4, 5], None);
    let r = m.cut_complanar_edges(100, &geo());
    assert_eq!(r, Ok(1));
    // the two crossing points were inserted
    assert_eq!(m.get_vertices().len(), 8);
    // a second run finds nothing left to do
    let r = m.cut_complanar_edges(100, &geo());
    assert_eq!(r, Ok(0));
}

#[test]
fn budget_limits_the_rewrites_and_convergence_follows() {
    // two far-apart crossing pairs in one plane: exactly two rewrites are
    // needed in all
    let mut vertices = crossing_pair(0.0);
    vertices.extend(crossing_pair(100.0));
    let mut m: PMesh<u32> =
        PMesh::build(vertices, vec![0, 1, 2, 3, 4, 5, 6, 7, 8, 9, 10, 11], None);

    // a budget of one performs exactly one rewrite and stops
    let r = m.cut_complanar_edges(1, &geo());
    assert_eq!(r, Ok(1));
    assert_eq!(m.get_vertices().len(), 14);

    // calling again with the previous result performs the second rewrite
    let r = m.cut_complanar_edges(1, &geo());
    assert_eq!(r, Ok(1));
    assert_eq!(m.get_vertices().len(), 16);

    // after enough budget no coplanar overlap is left
    let r = m.cut_complanar_edges(1, &geo());
    assert_eq!(r, Ok(0));
    assert_eq!(m.get_vertices().len(), 16);
}

#[test]
fn resolving_drops_the_attribute_arrays() {
    let mut m: PMesh<u32> = PMesh::build(crossing_pair(0.0), vec![0, 1, 2, 3, 4, 5], None);
    assert!(m.cut_complanar_edges(100, &geo()).is_ok());
    assert!(m.get_uv().is_none());
    assert!(m.get_normals().is_none());
}

#[test]
fn a_budget_of_zero_changes_nothing() {
    let mut m: PMesh<u32> = PMesh::build(crossing_pair(0.0), vec![0, 1, 2, 3, 4, 5], None);
    let r = m.cut_complanar_edges(0, &geo());
    assert_eq!(r, Ok(0));
    assert_eq!(m.get_vertices().len(), 6);
}
