//! Procedural triangle-mesh construction with verified index handling.
//!
//! The crate assembles vertex and index buffers from primitive shapes and
//! tessellated paths, transforms them, and repairs coplanar overlaps by
//! re-triangulating the affected region. Every operation keeps the mesh
//! invariant: each index value lies strictly below the vertex count, and
//! the optional per-vertex attribute arrays match the vertex count.

mod geometry;
mod index_type;
mod indices;
mod math;
mod mesh;
mod resolve;
mod vertices;

pub use geometry::{PlaneGeometry, Triangle};
pub use index_type::IndexType;
pub use indices::{
    converted_indices, list_as_strip, shifted_by, strip_as_list, strip_source, IndexExport,
    PIndices,
};
pub use math::{
    vec3_cross_of, vec3_difference_of, vec3_normalized_of, vec3_product_of, vec3_sum_of,
    vec3_swapped_yz_of,
};
pub use mesh::{face_flat_normal, merged_from, references, PMesh, Topology};
pub use resolve::ResolveError;
pub use vertices::PVertices;
