//! Geometry abstraction layer: traits, mesh data and backends.

pub mod backends;
pub mod mesh;
pub mod operations;
pub mod traits;

use vstd::prelude::*;

verus! {

/// Two-dimensional Delaunay backend.
pub type DelaunayBackend2D<S> = backends::delaunay::DelaunayBackend<S, 2>;

/// Default backend type for two-dimensional simulations.
pub type DefaultBackend<S> = DelaunayBackend2D<S>;

/// Triangulations over the default backend.
pub type CdtTriangulation2D<S> = crate::cdt::triangulation::CdtTriangulation<DefaultBackend<S>>;

} // verus!
