//! Core geometry traits that isolate the simulation from any concrete
//! geometry implementation.

use std::fmt::Debug;
use std::hash::Hash;
use vstd::prelude::*;

verus! {

/// Numeric type usable as a coordinate.
pub trait CoordinateScalar: Clone + Copy + PartialEq + PartialOrd + Debug + 'static {

}

impl<T> CoordinateScalar for T where T: Clone + Copy + PartialEq + PartialOrd + Debug + 'static {

}

/// Opaque handle for a geometry entity.
pub trait GeometryHandle: Clone + Eq + Hash + Debug {

}

impl<T> GeometryHandle for T where T: Clone + Eq + Hash + Debug {

}

/// The Euler characteristic `V - E + F` as a mathematical integer.
pub open spec fn euler_characteristic_of(v: int, e: int, f: int) -> int {
    v - e + f
}

/// `x` limited to the range of `i32`.
pub open spec fn clamp_to_i32(x: int) -> int {
    if x < i32::MIN {
        i32::MIN as int
    } else if x > i32::MAX {
        i32::MAX as int
    } else {
        x
    }
}

/// Core geometry backend: the associated scalar, handle and error types.
pub trait GeometryBackend {
    /// Coordinate type used by this backend.
    type Coordinate: CoordinateScalar;

    /// Opaque handle type for vertices.
    type VertexHandle: GeometryHandle;

    /// Opaque handle type for edges.
    type EdgeHandle: GeometryHandle;

    /// Opaque handle type for faces.
    type FaceHandle: GeometryHandle;

    /// Error type for backend operations.
    type Error;

    /// Backend identifier for debugging.
    fn backend_name(&self) -> &'static str;
}

/// Optional marker trait for thread-safe backends.
pub trait ThreadSafeBackend: GeometryBackend + Send + Sync {

}

/// Read-only triangulation operations.
pub trait TriangulationQuery: GeometryBackend {
    /// Number of vertices of the complex.
    spec fn spec_vertex_count(&self) -> nat;

    /// Number of distinct edges of the complex.
    spec fn spec_edge_count(&self) -> nat;

    /// Number of faces of the complex.
    spec fn spec_face_count(&self) -> nat;

    /// Dimensionality of the complex.
    spec fn spec_dimension(&self) -> nat;

    /// Whether the complex passes the backend's structural check.
    spec fn spec_is_valid(&self) -> bool;

    /// Get the number of vertices in the triangulation.
    fn vertex_count(&self) -> (n: usize)
        ensures
            n == self.spec_vertex_count(),
    ;

    /// Get the number of edges in the triangulation.
    fn edge_count(&self) -> (n: usize)
        ensures
            n == self.spec_edge_count(),
    ;

    /// Get the number of faces in the triangulation.
    fn face_count(&self) -> (n: usize)
        ensures
            n == self.spec_face_count(),
    ;

    /// Get the dimensionality of the triangulation.
    fn dimension(&self) -> (n: usize)
        ensures
            n == self.spec_dimension(),
    ;

    /// All vertices of the triangulation.
    fn vertices(&self) -> (handles: Vec<Self::VertexHandle>)
        ensures
            handles@.len() == self.spec_vertex_count(),
    ;

    /// All edges of the triangulation.
    fn edges(&self) -> (handles: Vec<Self::EdgeHandle>)
        ensures
            handles@.len() == self.spec_edge_count(),
    ;

    /// All faces of the triangulation.
    fn faces(&self) -> (handles: Vec<Self::FaceHandle>)
        ensures
            handles@.len() == self.spec_face_count(),
    ;

    /// Get the coordinates of a vertex; fails on an unknown handle.
    fn vertex_coordinates(&self, vertex: &Self::VertexHandle) -> Result<
        Vec<Self::Coordinate>,
        Self::Error,
    >;

    /// Get the vertices that form a face; fails on an unknown handle.
    fn face_vertices(&self, face: &Self::FaceHandle) -> Result<
        Vec<Self::VertexHandle>,
        Self::Error,
    >;

    /// Get the two vertices that form an edge; fails on an unknown handle.
    fn edge_endpoints(&self, edge: &Self::EdgeHandle) -> Result<
        (Self::VertexHandle, Self::VertexHandle),
        Self::Error,
    >;

    /// Get all faces adjacent to a vertex; fails on an unknown handle.
    fn adjacent_faces(&self, vertex: &Self::VertexHandle) -> Result<
        Vec<Self::FaceHandle>,
        Self::Error,
    >;

    /// Get all edges incident to a vertex; fails on an unknown handle.
    fn incident_edges(&self, vertex: &Self::VertexHandle) -> Result<
        Vec<Self::EdgeHandle>,
        Self::Error,
    >;

    /// Get all faces neighboring a given face; fails on an unknown handle.
    fn face_neighbors(&self, face: &Self::FaceHandle) -> Result<
        Vec<Self::FaceHandle>,
        Self::Error,
    >;

    /// Check if the triangulation is structurally valid.
    fn is_valid(&self) -> (ok: bool)
        ensures
            ok == self.spec_is_valid(),
    ;

    /// Calculate the Euler characteristic `V - E + F`, limited to the range
    /// of the result type.
    fn euler_characteristic(&self) -> (chi: i32)
        ensures
            chi == clamp_to_i32(
                euler_characteristic_of(
                    self.spec_vertex_count() as int,
                    self.spec_edge_count() as int,
                    self.spec_face_count() as int,
                ),
            ),
    {
        let v: i128 = self.vertex_count() as i128;
        let e: i128 = self.edge_count() as i128;
        let f: i128 = self.face_count() as i128;
        let chi: i128 = v - e + f;
        if chi < i32::MIN as i128 {
            i32::MIN
        } else if chi > i32::MAX as i128 {
            i32::MAX
        } else {
            chi as i32
        }
    }
}

/// Result of an edge flip.
#[derive(Debug)]
pub struct FlipResult<V, E, F> {
    /// The new edge created by the flip.
    pub new_edge: E,
    /// Faces affected by the flip operation.
    pub affected_faces: Vec<F>,
    _phantom: std::marker::PhantomData<V>,
}

impl<V, E, F> FlipResult<V, E, F> {
    /// The edge this result holds.
    pub closed spec fn edge(&self) -> E {
        self.new_edge
    }

    /// The faces this result holds.
    pub closed spec fn faces(&self) -> Vec<F> {
        self.affected_faces
    }

    /// Create a new flip result.
    pub fn new(new_edge: E, affected_faces: Vec<F>) -> (result: Self)
        ensures
            result.edge() == new_edge,
            result.faces() == affected_faces,
    {
        Self { new_edge, affected_faces, _phantom: std::marker::PhantomData }
    }
}

impl<V, E: Clone, F: Clone> Clone for FlipResult<V, E, F> {
    fn clone(&self) -> (copy: Self) {
        Self {
            new_edge: self.new_edge.clone(),
            affected_faces: self.affected_faces.clone(),
            _phantom: std::marker::PhantomData,
        }
    }
}

/// Result of a face subdivision.
#[derive(Debug)]
pub struct SubdivisionResult<V, E, F> {
    /// The new vertex created at the subdivision point.
    pub new_vertex: V,
    /// New faces created by the subdivision.
    pub new_faces: Vec<F>,
    /// The face that was subdivided (now removed).
    pub removed_face: F,
    _phantom: std::marker::PhantomData<E>,
}

impl<V, E, F> SubdivisionResult<V, E, F> {
    /// The vertex this result holds.
    pub closed spec fn vertex(&self) -> V {
        self.new_vertex
    }

    /// The created faces this result holds.
    pub closed spec fn created(&self) -> Vec<F> {
        self.new_faces
    }

    /// The removed face this result holds.
    pub closed spec fn removed(&self) -> F {
        self.removed_face
    }

    /// Create a new subdivision result.
    pub fn new(new_vertex: V, new_faces: Vec<F>, removed_face: F) -> (result: Self)
        ensures
            result.vertex() == new_vertex,
            result.created() == new_faces,
            result.removed() == removed_face,
    {
        Self { new_vertex, new_faces, removed_face, _phantom: std::marker::PhantomData }
    }
}

impl<V: Clone, E, F: Clone> Clone for SubdivisionResult<V, E, F> {
    fn clone(&self) -> (copy: Self) {
        Self {
            new_vertex: self.new_vertex.clone(),
            new_faces: self.new_faces.clone(),
            removed_face: self.removed_face.clone(),
            _phantom: std::marker::PhantomData,
        }
    }
}

/// Mutable triangulation operations.
pub trait TriangulationMut: TriangulationQuery {
    /// Insert a new vertex at the given coordinates.
    fn insert_vertex(&mut self, coords: &[Self::Coordinate]) -> Result<
        Self::VertexHandle,
        Self::Error,
    >;

    /// Remove a vertex from the triangulation; returns the faces affected.
    fn remove_vertex(&mut self, vertex: Self::VertexHandle) -> Result<
        Vec<Self::FaceHandle>,
        Self::Error,
    >;

    /// Move a vertex to new coordinates.
    fn move_vertex(&mut self, vertex: Self::VertexHandle, new_coords: &[Self::Coordinate]) -> Result<
        (),
        Self::Error,
    >;

    /// Flip an edge in the triangulation.
    fn flip_edge(&mut self, edge: Self::EdgeHandle) -> Result<
        FlipResult<Self::VertexHandle, Self::EdgeHandle, Self::FaceHandle>,
        Self::Error,
    >;

    /// Check if an edge can be flipped.
    fn can_flip_edge(&self, edge: &Self::EdgeHandle) -> bool;

    /// Subdivide a face by adding a vertex at the given point.
    fn subdivide_face(&mut self, face: Self::FaceHandle, point: &[Self::Coordinate]) -> Result<
        SubdivisionResult<Self::VertexHandle, Self::EdgeHandle, Self::FaceHandle>,
        Self::Error,
    >;

    /// Clear all elements from the triangulation.
    fn clear(&mut self);

    /// Reserve capacity for vertices and faces; the complex is unchanged.
    fn reserve_capacity(&mut self, vertices: usize, faces: usize)
        ensures
            final(self).spec_vertex_count() == old(self).spec_vertex_count(),
            final(self).spec_edge_count() == old(self).spec_edge_count(),
            final(self).spec_face_count() == old(self).spec_face_count(),
            final(self).spec_dimension() == old(self).spec_dimension(),
            final(self).spec_is_valid() == old(self).spec_is_valid(),
    ;
}

/// Factory for creating triangulations from various sources.
pub trait TriangulationFactory<B: GeometryBackend> {
    /// Configuration type for the factory.
    type Config: Clone;

    /// Create an empty triangulation.
    fn create_empty(config: Self::Config) -> Result<B, B::Error>;

    /// Create a triangulation from a set of points.
    fn create_from_points(points: &[Vec<B::Coordinate>], config: Self::Config) -> Result<
        B,
        B::Error,
    >;

    /// Create a random triangulation with the specified parameters.
    fn create_random(
        vertex_count: usize,
        bounds: (B::Coordinate, B::Coordinate),
        config: Self::Config,
    ) -> Result<B, B::Error>;
}

} // verus!
