//! Operations that work across all geometry backends.

use super::traits::TriangulationQuery;
use vstd::prelude::*;

verus! {

/// Common utility operations for triangulations.
pub trait TriangulationOps: TriangulationQuery {
    /// Check the Delaunay property. Backends without an exact predicate fall
    /// back on the structural check.
    fn is_delaunay(&self) -> (ok: bool)
        ensures
            ok == self.spec_is_valid(),
    {
        self.is_valid()
    }

    /// Convex hull of the triangulation. Not computed yet: always empty.
    fn convex_hull(&self) -> (hull: Vec<Self::VertexHandle>)
        ensures
            hull@.len() == 0,
    {
        Vec::new()
    }

    /// Boundary edges of the triangulation. Not computed yet: always empty.
    fn boundary_edges(&self) -> (boundary: Vec<Self::EdgeHandle>)
        ensures
            boundary@.len() == 0,
    {
        Vec::new()
    }
}

impl<T: TriangulationQuery> TriangulationOps for T {

}

} // verus!
