//! Crossing patterns that plane geometry rules out are reported as errors
//! instead of being acted on. Real tolerant tests cannot produce them, so
//! these geometries answer by call count alone.

use glam::Vec3;
use procmesh::{PMesh, PlaneGeometry, ResolveError, Triangle};
use std::cell::Cell;

/// Answers the resolver from fixed scripts: the n-th segment query crosses
/// iff the script says so, and likewise for the containment queries.
struct Scripted {
    segment_calls: Cell<usize>,
    segment_script: Vec<bool>,
    contains_calls: Cell<usize>,
    contains_script: Vec<bool>,
    winding: Option<bool>,
}

impl Scripted {
    fn new(segment_script: Vec<bool>, contains_script: Vec<bool>, winding: Option<bool>) -> Self {
        Scripted {
            segment_calls: Cell::new(0),
            segment_script,
            contains_calls: Cell::new(0),
            contains_script,
            winding,
        }
    }
}

impl PlaneGeometry for Scripted {
    fn is_degenerate(&self, _t: &Triangle) -> bool {
        false
    }

    fn is_coplanar(&self, _t1: &Triangle, _t2: &Triangle) -> bool {
        true
    }

    fn contains_triangle(&self, _outer: &Triangle, _inner: &Triangle) -> bool {
        false
    }

    fn contains_point(&self, _t: &Triangle, _p: Vec3) -> bool {
        let n = self.contains_calls.get();
        self.contains_calls.set(n + 1);
        self.contains_script.get(n).copied().unwrap_or(false)
    }

    fn same_winding_direction(&self, _t1: &Triangle, _t2: &Triangle) -> Option<bool> {
        self.winding
    }

    fn segment_intersection(&self, _a: Vec3, _b: Vec3, _c: Vec3, _d: Vec3) -> Option<Vec3> {
        let n = self.segment_calls.get();
        self.segment_calls.set(n + 1);
        if self.segment_script.get(n).copied().unwrap_or(false) {
            Some(Vec3::new(0.5, 0.5, 0.0))
        } else {
            None
        }
    }
}

fn two_triangles() -> PMesh<u32> {
    PMesh::build(
        vec![
            Vec3::new(0.0, 0.0, 0.0),
            Vec3::new(1.0, 0.0, 0.0),
            Vec3::new(0.0, 1.0, 0.0),
            Vec3::new(2.0, 0.0, 0.0),
            Vec3::new(3.0, 0.0, 0.0),
            Vec3::new(2.0, 1.0, 0.0),
        ],
        vec![0, 1, 2, 3, 4, 5],
        None,
    )
}

#[test]
fn four_crossings_with_a_bad_edge_spread_are_reported() {
    // crossings on the edge pairs (0,0), (0,1), (1,0), (1,1): only two
    // distinct edges of the first triangle, though one of its corners lies
    // inside the other triangle
    let geo = Scripted::new(
        vec![true, true, false, true, true, false, false, false, false],
        // the first corner of triangle one is "inside", nothing else is
        vec![true],
        None,
    );
    let mut m = two_triangles();
    let r = m.cut_complanar_edges(10, &geo);
    assert_eq!(r, Err(ResolveError::MissingSpread));
    // the classification stopped before any rewrite
    assert_eq!(m.get_indices().iter_usize(), vec![0, 1, 2, 3, 4, 5]);
}

#[test]
fn four_crossings_without_a_wrap_point_are_reported() {
    // crossings on the edge pairs (0,0), (0,1), (1,0), (1,1), with the
    // third corner of each triangle "inside" the other: no record touches
    // edge two, so the wrap-point search must fail
    let geo = Scripted::new(
        vec![true, true, false, true, true, false, false, false, false],
        vec![false, false, true, false, false, true],
        None,
    );
    let mut m = two_triangles();
    let r = m.cut_complanar_edges(10, &geo);
    assert_eq!(r, Err(ResolveError::MissingWrapPoint));
}

#[test]
fn a_flipped_pair_with_no_interior_tip_is_reported() {
    // two crossings on distinct edges, opposite windings, and neither tip
    // inside the other triangle
    let geo = Scripted::new(
        vec![true, false, false, false, true, false, false, false, false],
        vec![],
        Some(false),
    );
    let mut m = two_triangles();
    let r = m.cut_complanar_edges(10, &geo);
    assert_eq!(r, Err(ResolveError::MissingTip));
    // the two crossing points were already inserted, but no index changed
    assert_eq!(m.get_indices().iter_usize(), vec![0, 1, 2, 3, 4, 5]);
    assert_eq!(m.get_vertices().len(), 8);
}
