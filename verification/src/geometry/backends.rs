//! Geometry backend implementations.

pub mod delaunay;
pub mod mock;
