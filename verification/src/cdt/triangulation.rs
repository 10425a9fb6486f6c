//! The triangulation wrapper: one geometry backend together with the
//! simulation metadata and a cache of derived counts.
//!
//! A cached count carries the modification count at which it was computed.
//! It is handed out only while that stamp is the current modification count;
//! mutable access to the backend empties the cache and moves the count on.

use crate::errors::{CdtError, CdtResult};
use crate::geometry::operations::TriangulationOps;
use crate::geometry::traits::{clamp_to_i32, euler_characteristic_of, TriangulationMut};
use crate::text::{signed_decimal, signed_decimal_string};
use std::time::Instant;
use vstd::prelude::*;
use vstd::string::StringExecFns;

verus! {

/// A point in time of the monotonic clock of std. Its value is not
/// modelled.
#[verifier::external_type_specification]
#[verifier::external_body]
pub struct ExInstant(Instant);

/// Calls `Instant::now`. The time read is not modelled, so nothing is
/// claimed of it.
#[verifier::external_body]
pub(crate) fn current_instant() -> (now: Instant) {
    Instant::now()
}

/// Events in the history of a simulation.
#[derive(Debug, Clone)]
pub enum SimulationEvent<S> {
    /// Triangulation was created.
    Created {
        /// Initial number of vertices.
        vertex_count: usize,
        /// Number of time slices.
        time_slices: u32,
    },
    /// An ergodic move was attempted.
    MoveAttempted {
        /// Type of move attempted.
        move_type: String,
        /// Simulation step number.
        step: u64,
    },
    /// An ergodic move was accepted.
    MoveAccepted {
        /// Type of move accepted.
        move_type: String,
        /// Simulation step number.
        step: u64,
        /// Change in action from this move.
        action_change: S,
    },
    /// A measurement was taken.
    MeasurementTaken {
        /// Simulation step number.
        step: u64,
        /// Action value measured.
        action: S,
    },
}

/// Metadata of a triangulation.
#[derive(Debug)]
pub struct CdtMetadata<S> {
    /// Number of time slices in the foliation.
    pub time_slices: u32,
    /// Dimensionality of the spacetime.
    pub dimension: u8,
    /// Time when this triangulation was created.
    pub creation_time: Instant,
    /// Time of last modification.
    pub last_modified: Instant,
    /// Count of modifications made to the triangulation.
    pub modification_count: u64,
    /// History of simulation events.
    pub simulation_history: Vec<SimulationEvent<S>>,
}

impl<S: Clone> Clone for CdtMetadata<S> {
    fn clone(&self) -> (copy: Self)
        ensures
            copy.time_slices == self.time_slices,
            copy.dimension == self.dimension,
            copy.modification_count == self.modification_count,
            copy.simulation_history@.len() == self.simulation_history@.len(),
    {
        Self {
            time_slices: self.time_slices,
            dimension: self.dimension,
            creation_time: self.creation_time,
            last_modified: self.last_modified,
            modification_count: self.modification_count,
            simulation_history: self.simulation_history.clone(),
        }
    }
}

/// A derived value together with the modification count it was computed at.
#[derive(Debug)]
struct CachedValue<T> {
    value: T,
    computed_at: Instant,
    modification_count: u64,
}

/// Cached geometry measurements.
#[derive(Debug)]
struct GeometryCache {
    edge_count: Option<CachedValue<usize>>,
    euler_char: Option<CachedValue<i32>>,
    topology_hash: Option<CachedValue<u64>>,
}

/// The triangulation wrapper: backend, metadata and cache.
#[derive(Debug)]
pub struct CdtTriangulation<B: TriangulationMut> {
    geometry: B,
    metadata: CdtMetadata<B::Coordinate>,
    cache: GeometryCache,
}

/// The Euler characteristic that the counts of `geometry` give.
pub open spec fn euler_of<B: TriangulationMut>(geometry: &B) -> int {
    clamp_to_i32(
        euler_characteristic_of(
            geometry.spec_vertex_count() as int,
            geometry.spec_edge_count() as int,
            geometry.spec_face_count() as int,
        ),
    )
}

/// The two Euler characteristics of a valid surface: 1 for a disk with
/// boundary, 2 for a closed surface.
pub open spec fn euler_characteristic_accepted(chi: int) -> bool {
    chi == 1 || chi == 2
}

/// The message of a topology failure.
pub open spec fn topology_message(chi: int) -> Seq<char> {
    "Invalid topology: Euler characteristic "@ + signed_decimal(chi)
        + " unexpected for 2D triangulation (expected 1 for boundary or 2 for closed surface)"@
}

impl<B: TriangulationMut> CdtTriangulation<B> {
    /// The backend this triangulation owns.
    pub closed spec fn backend(&self) -> B {
        self.geometry
    }

    /// The metadata of this triangulation.
    pub closed spec fn meta(&self) -> CdtMetadata<B::Coordinate> {
        self.metadata
    }

    /// The cached edge count with its stamp, if there is one.
    pub closed spec fn cached_edge_count(&self) -> Option<(usize, u64)> {
        match self.cache.edge_count {
            Some(cached) => Some((cached.value, cached.modification_count)),
            None => None,
        }
    }

    /// The cached Euler characteristic with its stamp, if there is one.
    pub closed spec fn cached_euler_characteristic(&self) -> Option<(i32, u64)> {
        match self.cache.euler_char {
            Some(cached) => Some((cached.value, cached.modification_count)),
            None => None,
        }
    }

    /// Every cached value that carries the current modification count is
    /// the value the backend gives now.
    pub closed spec fn well_formed(&self) -> bool {
        &&& match self.cache.edge_count {
            Some(cached) => cached.modification_count == self.metadata.modification_count
                ==> cached.value == self.geometry.spec_edge_count(),
            None => true,
        }
        &&& match self.cache.euler_char {
            Some(cached) => cached.modification_count == self.metadata.modification_count
                ==> cached.value == euler_of(&self.geometry),
            None => true,
        }
    }

    /// A cached edge count that carries the current modification count is
    /// the edge count of the backend: a well-formed triangulation holds no
    /// stale count under the current stamp.
    pub proof fn lemma_current_stamp_is_fresh(&self)
        requires
            self.well_formed(),
        ensures
            match self.cached_edge_count() {
                Some((value, stamp)) => stamp == self.meta().modification_count ==> value
                    == self.backend().spec_edge_count(),
                None => true,
            },
            match self.cached_euler_characteristic() {
                Some((value, stamp)) => stamp == self.meta().modification_count ==> value
                    == euler_of(&self.backend()),
                None => true,
            },
    {
    }

    /// Create a triangulation around a backend. The history starts with the
    /// creation event, the modification count at zero and the cache empty.
    pub fn new(geometry: B, time_slices: u32, dimension: u8) -> (triangulation: Self)
        ensures
            triangulation.backend() == geometry,
            triangulation.meta().time_slices == time_slices,
            triangulation.meta().dimension == dimension,
            triangulation.meta().modification_count == 0,
            triangulation.meta().simulation_history@.len() == 1,
            triangulation.meta().simulation_history@[0] == (SimulationEvent::<
                B::Coordinate,
            >::Created { vertex_count: geometry.spec_vertex_count() as usize, time_slices }),
            triangulation.cached_edge_count() is None,
            triangulation.cached_euler_characteristic() is None,
            triangulation.well_formed(),
    {
        let vertex_count = geometry.vertex_count();
        let creation_event = SimulationEvent::Created { vertex_count, time_slices };
        let mut simulation_history: Vec<SimulationEvent<B::Coordinate>> = Vec::new();
        simulation_history.push(creation_event);
        Self {
            geometry,
            metadata: CdtMetadata {
                time_slices,
                dimension,
                creation_time: current_instant(),
                last_modified: current_instant(),
                modification_count: 0,
                simulation_history,
            },
            cache: GeometryCache { edge_count: None, euler_char: None, topology_hash: None },
        }
    }

    /// Get a shared reference to the backend.
    pub fn geometry(&self) -> (geometry: &B)
        ensures
            *geometry == self.backend(),
    {
        &self.geometry
    }

    /// Get a shared reference to the metadata.
    pub fn metadata(&self) -> (metadata: &CdtMetadata<B::Coordinate>)
        ensures
            *metadata == self.meta(),
    {
        &self.metadata
    }

    /// Get the number of vertices in the triangulation.
    pub fn vertex_count(&self) -> (n: usize)
        ensures
            n == self.backend().spec_vertex_count(),
    {
        self.geometry.vertex_count()
    }

    /// Get the number of faces in the triangulation.
    pub fn face_count(&self) -> (n: usize)
        ensures
            n == self.backend().spec_face_count(),
    {
        self.geometry.face_count()
    }

    /// Get the number of time slices in the foliation.
    pub fn time_slices(&self) -> (n: u32)
        ensures
            n == self.meta().time_slices,
    {
        self.metadata.time_slices
    }

    /// Get the dimensionality of the spacetime.
    pub fn dimension(&self) -> (n: u8)
        ensures
            n == self.meta().dimension,
    {
        self.metadata.dimension
    }

    /// The number of edges. A cached count is returned while its stamp is
    /// the current modification count; otherwise the backend counts anew,
    /// and the cache is left as it is. Either way the result is the count
    /// the backend gives now.
    pub fn edge_count(&self) -> (n: usize)
        requires
            self.well_formed(),
        ensures
            n == self.backend().spec_edge_count(),
    {
        match &self.cache.edge_count {
            Some(cached) => {
                if cached.modification_count == self.metadata.modification_count {
                    return cached.value;
                }
            },
            None => {},
        }
        self.geometry.edge_count()
    }

    /// Recomputes the edge count and the Euler characteristic and stamps
    /// both with the current modification count.
    pub fn refresh_cache(&mut self)
        ensures
            final(self).backend() == old(self).backend(),
            final(self).meta() == old(self).meta(),
            final(self).cached_edge_count() == Some(
                (
                    old(self).backend().spec_edge_count() as usize,
                    old(self).meta().modification_count,
                ),
            ),
            final(self).cached_euler_characteristic() == Some(
                (euler_of(&old(self).backend()) as i32, old(self).meta().modification_count),
            ),
            final(self).well_formed(),
    {
        let now = current_instant();
        let mod_count = self.metadata.modification_count;
        let edges = self.geometry.edge_count();
        let euler = self.geometry.euler_characteristic();
        self.cache = GeometryCache {
            edge_count: Some(
                CachedValue { value: edges, computed_at: now, modification_count: mod_count },
            ),
            euler_char: Some(
                CachedValue { value: euler, computed_at: now, modification_count: mod_count },
            ),
            topology_hash: None,
        };
    }
}

/// Scoped mutable access to the backend and the metadata of a
/// triangulation. All invalidation has happened when this is handed out;
/// letting go of it has no further effect.
pub struct CdtGeometryMut<'a, B: TriangulationMut> {
    /// The backend of the triangulation.
    pub geometry: &'a mut B,
    /// The metadata of the triangulation.
    pub metadata: &'a mut CdtMetadata<B::Coordinate>,
}

impl<'a, B: TriangulationMut> CdtGeometryMut<'a, B> {
    /// Record a simulation event at the end of the history.
    pub fn record_event(&mut self, event: SimulationEvent<B::Coordinate>)
        ensures
            *final(self).geometry == *old(self).geometry,
            final(self).metadata.simulation_history@ == old(
                self,
            ).metadata.simulation_history@.push(event),
            final(self).metadata.time_slices == old(self).metadata.time_slices,
            final(self).metadata.dimension == old(self).metadata.dimension,
            final(self).metadata.modification_count == old(self).metadata.modification_count,
            *final(final(self).geometry) == *final(old(self).geometry),
            *final(final(self).metadata) == *final(old(self).metadata),
    {
        self.metadata.simulation_history.push(event);
    }

    /// Get a mutable reference to the backend.
    pub fn geometry_mut(&mut self) -> (geometry: &mut B)
        ensures
            *geometry == *old(self).geometry,
            *final(self).geometry == *final(geometry),
            *final(self).metadata == *old(self).metadata,
            *final(final(self).geometry) == *final(old(self).geometry),
            *final(final(self).metadata) == *final(old(self).metadata),
    {
        self.geometry
    }
}

impl<'a, B: TriangulationMut> std::ops::Deref for CdtGeometryMut<'a, B> {
    type Target = B;

    fn deref(&self) -> (geometry: &B)
        ensures
            *geometry == *old(self.geometry),
    {
        self.geometry
    }
}

impl<B: TriangulationMut> CdtTriangulation<B> {
    /// Get mutable access to the backend. This moves the modification count
    /// on by one and empties the cache at once, whether or not the caller
    /// goes on to change anything.
    pub fn geometry_mut(&mut self) -> (access: CdtGeometryMut<'_, B>)
        requires
            old(self).meta().modification_count < u64::MAX,
        ensures
            *access.geometry == old(self).backend(),
            access.metadata.modification_count == old(self).meta().modification_count + 1,
            access.metadata.time_slices == old(self).meta().time_slices,
            access.metadata.dimension == old(self).meta().dimension,
            access.metadata.simulation_history == old(self).meta().simulation_history,
            final(self).backend() == *final(access.geometry),
            final(self).meta() == *final(access.metadata),
            final(self).cached_edge_count() is None,
            final(self).cached_euler_characteristic() is None,
            final(self).well_formed(),
    {
        self.invalidate_cache();
        self.metadata.last_modified = current_instant();
        self.metadata.modification_count = self.metadata.modification_count + 1;
        CdtGeometryMut { geometry: &mut self.geometry, metadata: &mut self.metadata }
    }

    /// Empties the cache.
    fn invalidate_cache(&mut self)
        ensures
            final(self).backend() == old(self).backend(),
            final(self).meta() == old(self).meta(),
            final(self).cached_edge_count() is None,
            final(self).cached_euler_characteristic() is None,
    {
        self.cache = GeometryCache { edge_count: None, euler_char: None, topology_hash: None };
    }
}

/// The outcome that validation owes to a backend that is valid or not, of
/// the given dimension and Euler characteristic.
pub open spec fn validation_outcome(valid: bool, dimension: u8, chi: int, result: CdtResult<()>)
    -> bool {
    if !valid {
        result matches Err(CdtError::InvalidParameters(msg)) && msg@
            == "Invalid geometry: triangulation is not valid"@
    } else if dimension == 2 && !euler_characteristic_accepted(chi) {
        result matches Err(CdtError::InvalidParameters(msg)) && msg@ == topology_message(chi)
    } else {
        result is Ok
    }
}

/// The outcome that a request for a generated triangulation owes to its
/// parameters: the dimension is looked at first, then the vertex count.
pub open spec fn generation_request_outcome(vertices: u32, dimension: u8, result: CdtResult<()>)
    -> bool {
    if dimension != 2 {
        result == Err::<(), CdtError>(CdtError::UnsupportedDimension(dimension as u32))
    } else if vertices < 3 {
        result matches Err(CdtError::InvalidParameters(msg)) && msg@
            == "vertices must be >= 3 for 2D triangulation"@
    } else {
        result is Ok
    }
}

/// Validation of a valid two-dimensional triangulation accepts the Euler
/// characteristics 1 and 2 and rejects every other one.
pub proof fn lemma_validation_accepts_one_and_two(chi: int)
    ensures
        validation_outcome(true, 2, chi, Ok(())) <==> (chi == 1 || chi == 2),
{
}

impl<B: TriangulationMut> CdtTriangulation<B> {
    /// Validate the triangulation: the backend must pass its structural
    /// check, and in two dimensions the Euler characteristic must be 1 or 2.
    /// Causality and foliation are not checked yet.
    pub fn validate(&self) -> (result: CdtResult<()>)
        ensures
            validation_outcome(
                self.backend().spec_is_valid(),
                self.meta().dimension,
                euler_of(&self.backend()),
                result,
            ),
    {
        if !self.geometry.is_valid() {
            return Err(
                CdtError::InvalidParameters(
                    String::from_str("Invalid geometry: triangulation is not valid"),
                ),
            );
        }
        if !self.geometry.is_delaunay() {
            return Err(
                CdtError::InvalidParameters(
                    String::from_str(
                        "Invalid geometry: triangulation does not satisfy Delaunay property",
                    ),
                ),
            );
        }
        match self.validate_topology() {
            Ok(_) => {},
            Err(e) => {
                return Err(e);
            },
        }
        match self.validate_causality() {
            Ok(_) => {},
            Err(e) => {
                return Err(e);
            },
        }
        self.validate_foliation()
    }

    /// Validate the topology: in two dimensions the Euler characteristic
    /// must be 1 (disk with boundary) or 2 (closed surface).
    pub fn validate_topology(&self) -> (result: CdtResult<()>)
        ensures
            validation_outcome(
                true,
                self.meta().dimension,
                euler_of(&self.backend()),
                result,
            ),
    {
        let euler_char = self.geometry.euler_characteristic();
        if self.dimension() == 2 {
            if euler_char != 1 && euler_char != 2 {
                let mut message = String::from_str("Invalid topology: Euler characteristic ");
                let number = signed_decimal_string(euler_char as i64);
                message.append(number.as_str());
                message.append(
                    " unexpected for 2D triangulation (expected 1 for boundary or 2 for closed surface)",
                );
                return Err(CdtError::InvalidParameters(message));
            }
        }
        Ok(())
    }

    /// Validate causality. Not checked yet: always succeeds.
    pub fn validate_causality(&self) -> (result: CdtResult<()>)
        ensures
            result is Ok,
    {
        Ok(())
    }

    /// Validate the foliation. Not checked yet: always succeeds.
    pub fn validate_foliation(&self) -> (result: CdtResult<()>)
        ensures
            result is Ok,
    {
        Ok(())
    }

    /// Checks the parameters of a request for a generated triangulation,
    /// before anything is generated: only dimension 2 is supported, and a
    /// triangulation needs three vertices.
    pub fn check_generation_request(vertices: u32, dimension: u8) -> (result: CdtResult<()>)
        ensures
            generation_request_outcome(vertices, dimension, result),
    {
        if dimension != 2 {
            return Err(CdtError::UnsupportedDimension(dimension as u32));
        }
        if vertices < 3 {
            return Err(
                CdtError::InvalidParameters(
                    String::from_str("vertices must be >= 3 for 2D triangulation"),
                ),
            );
        }
        Ok(())
    }
}

} // verus!
