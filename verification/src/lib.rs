//! Causal Dynamical Triangulations in two dimensions: a backend-agnostic
//! triangulation wrapper, the Regge action, ergodic-move bookkeeping and a
//! Metropolis-Hastings driver, with machine-checked contracts.

pub mod cdt;
pub mod config;
pub mod errors;
pub mod geometry;
pub mod text;
pub mod triangulations;
pub mod util;

pub use cdt::action::{compute_regge_action, ActionConfig};
pub use cdt::ergodic_moves::{ErgodicsSystem, MoveResult, MoveType};
pub use cdt::metropolis::{MetropolisAlgorithm, MetropolisConfig, SimulationResultsBackend};
pub use cdt::triangulation::CdtTriangulation;
pub use config::{CdtConfig, TestConfig};
pub use errors::{CdtError, CdtResult};

use cdt::action::{arithmetic_specified, arithmetic_total, Scalar};
use cdt::metropolis::{
    narrow_count, run_recorded, simplex_count, span_of_millis, statistics_through, steps_decided,
    Measurement, StepOutcome,
};
use geometry::traits::TriangulationMut;
use vstd::prelude::*;

verus! {

/// The dimension of the configuration is one the simulation supports: none
/// given, or 2.
pub open spec fn dimension_supported<S>(config: &CdtConfig<S>) -> bool {
    match config.dimension {
        Some(dim) => dim == 2,
        None => true,
    }
}

/// Runs a configuration on a triangulation.
///
/// A dimension other than 2 is refused. Where the configuration asks for a
/// simulation, the Metropolis algorithm runs on the triangulation. Where it
/// does not, the results hold no step and a single measurement, of the
/// triangulation as it is.
pub fn run_with_backend<S: Scalar + num_traits::Float, B: TriangulationMut<Coordinate = S>>(
    config: &CdtConfig<S>,
    triangulation: CdtTriangulation<B>,
) -> (result: CdtResult<SimulationResultsBackend<B>>) where
    rand::distr::StandardUniform: rand::distr::Distribution<S>,

    requires
        arithmetic_total::<S>(),
        triangulation.well_formed(),
        config.simulate ==> config.measurement_frequency >= 1,
    ensures
        match result {
            Ok(results) => {
                &&& dimension_supported(config)
                &&& results.triangulation == triangulation
                &&& results.config == config.to_metropolis_config_spec()
                &&& results.action_config == config.to_action_config_spec()
                &&& config.simulate ==> run_recorded(
                    config.steps as nat,
                    config.measurement_frequency,
                    config.to_action_config_spec(),
                    simplex_count(triangulation.backend().spec_vertex_count()),
                    simplex_count(triangulation.backend().spec_edge_count()),
                    simplex_count(triangulation.backend().spec_face_count()),
                    results.steps@,
                    results.measurements@,
                )
                &&& config.simulate ==> exists|outcomes: Seq<StepOutcome>| #[trigger]
                    steps_decided(
                        config.to_action_config_spec(),
                        simplex_count(triangulation.backend().spec_vertex_count()),
                        simplex_count(triangulation.backend().spec_edge_count()),
                        simplex_count(triangulation.backend().spec_face_count()),
                        results.steps@,
                        outcomes,
                    )
                &&& !config.simulate ==> {
                    &&& results.steps@.len() == 0
                    &&& results.measurements@.len() == 1
                    &&& results.measurements@[0].step == 0
                    &&& results.measurements@[0].vertices == simplex_count(
                        triangulation.backend().spec_vertex_count(),
                    )
                    &&& results.measurements@[0].edges == simplex_count(
                        triangulation.backend().spec_edge_count(),
                    )
                    &&& results.measurements@[0].triangles == simplex_count(
                        triangulation.backend().spec_face_count(),
                    )
                    &&& arithmetic_specified::<S>() ==> results.measurements@[0].action
                        == config.to_action_config_spec().action_of(
                        results.measurements@[0].vertices,
                        results.measurements@[0].edges,
                        results.measurements@[0].triangles,
                    )
                }
            },
            Err(e) => !dimension_supported(config) && e == CdtError::UnsupportedDimension(
                config.dimension->Some_0 as u32,
            ),
        },
{
    if let Some(dim) = config.dimension {
        if dim != 2 {
            return Err(CdtError::UnsupportedDimension(dim as u32));
        }
    }
    if config.simulate {
        let metropolis_config = config.to_metropolis_config();
        let action_config = config.to_action_config();
        let mut algorithm = MetropolisAlgorithm::new(metropolis_config, action_config);
        let ghost fresh = algorithm.statistics();
        let results = algorithm.run(triangulation);
        proof {
            let outcomes = choose|outcomes: Seq<StepOutcome>| #[trigger]
                steps_decided(
                    action_config,
                    simplex_count(triangulation.backend().spec_vertex_count()),
                    simplex_count(triangulation.backend().spec_edge_count()),
                    simplex_count(triangulation.backend().spec_face_count()),
                    results.steps@,
                    outcomes,
                ) && algorithm.statistics() == statistics_through(fresh, results.steps@, outcomes);
            assert(steps_decided(
                config.to_action_config_spec(),
                simplex_count(triangulation.backend().spec_vertex_count()),
                simplex_count(triangulation.backend().spec_edge_count()),
                simplex_count(triangulation.backend().spec_face_count()),
                results.steps@,
                outcomes,
            ));
        }
        Ok(results)
    } else {
        let vertices = narrow_count(triangulation.vertex_count());
        let edges = narrow_count(triangulation.edge_count());
        let triangles = narrow_count(triangulation.face_count());
        let initial_action = config.to_action_config().calculate_action(vertices, edges, triangles);
        let mut measurements: Vec<Measurement<S>> = Vec::new();
        measurements.push(
            Measurement { step: 0, action: initial_action, vertices, edges, triangles },
        );
        Ok(
            SimulationResultsBackend {
                config: config.to_metropolis_config(),
                action_config: config.to_action_config(),
                steps: Vec::new(),
                measurements,
                elapsed_time: span_of_millis(0),
                triangulation,
            },
        )
    }
}

} // verus!
