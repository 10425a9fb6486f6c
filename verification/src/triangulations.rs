//! Triangulations as plain lists of vertex indices: the first, simple
//! representation, kept beside the backend-based one.

pub mod causal;
pub mod delaunay_triangulations;
