//! Mesh data structures that are independent of the geometry backend.

use super::traits::CoordinateScalar;
use vstd::prelude::*;

verus! {

/// A vertex in the mesh with its coordinates.
#[derive(Debug, Clone, PartialEq, Eq)]
pub struct Vertex<T: CoordinateScalar> {
    /// Spatial coordinates of the vertex.
    pub coordinates: Vec<T>,
    /// Optional time slice assignment.
    pub time_slice: Option<u32>,
}

/// An edge in the mesh.
#[derive(Debug, Clone, Copy, PartialEq, Eq, Hash)]
pub struct Edge {
    /// Indices of the two vertices forming this edge.
    pub vertex_indices: (usize, usize),
    /// Whether this edge is timelike (connects different time slices).
    pub is_timelike: bool,
}

/// A face (triangle in 2D, tetrahedron in 3D) in the mesh.
#[derive(Debug, Clone, PartialEq, Eq)]
pub struct Face {
    /// Indices of vertices forming this face.
    pub vertex_indices: Vec<usize>,
}

/// Complete mesh representation.
#[derive(Debug, Clone)]
pub struct Mesh<T: CoordinateScalar> {
    /// All vertices in the mesh.
    pub vertices: Vec<Vertex<T>>,
    /// All edges in the mesh.
    pub edges: Vec<Edge>,
    /// All faces in the mesh.
    pub faces: Vec<Face>,
    /// Dimensionality of the mesh.
    pub dimension: usize,
}

impl<T: CoordinateScalar> Mesh<T> {
    /// Create a new empty mesh of the given dimension.
    pub fn new(dimension: usize) -> (mesh: Self)
        ensures
            mesh.vertices@.len() == 0,
            mesh.edges@.len() == 0,
            mesh.faces@.len() == 0,
            mesh.dimension == dimension,
    {
        Self { vertices: Vec::new(), edges: Vec::new(), faces: Vec::new(), dimension }
    }

    /// Get the number of vertices.
    pub fn vertex_count(&self) -> (n: usize)
        ensures
            n == self.vertices@.len(),
    {
        self.vertices.len()
    }

    /// Get the number of edges.
    pub fn edge_count(&self) -> (n: usize)
        ensures
            n == self.edges@.len(),
    {
        self.edges.len()
    }

    /// Get the number of faces.
    pub fn face_count(&self) -> (n: usize)
        ensures
            n == self.faces@.len(),
    {
        self.faces.len()
    }
}

} // verus!
