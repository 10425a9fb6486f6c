use causal_dynamical_triangulations::cdt::triangulation::{CdtTriangulation, SimulationEvent};
use causal_dynamical_triangulations::errors::CdtError;
use causal_dynamical_triangulations::geometry::backends::delaunay::{
    CellRecord, DelaunayBackend, VertexRecord,
};
use causal_dynamical_triangulations::geometry::backends::mock::MockBackend;
use causal_dynamical_triangulations::geometry::traits::{TriangulationMut, TriangulationQuery};
use causal_dynamical_triangulations::geometry::{CdtTriangulation2D, DelaunayBackend2D};
use causal_dynamical_triangulations::util::{generation_failure, validate_generation_parameters};

/// A fan of triangles around the first of `n` points in convex position.
fn fan_complex(n: u32, valid: bool) -> DelaunayBackend2D<f64> {
    let mut vertices = Vec::new();
    for i in 0..n {
        let angle = 2.0 * std::f64::consts::PI * f64::from(i) / f64::from(n);
        vertices.push(VertexRecord {
            id: u128::from(i) + 1,
            coordinates: vec![5.0 + 4.0 * angle.cos(), 5.0 + 4.0 * angle.sin()],
        });
    }
    let mut cells = Vec::new();
    for i in 1..n.saturating_sub(1) {
        let previous = if i > 1 { Some(1000 + u128::from(i) - 1) } else { None };
        let next = if i + 2 < n { Some(1000 + u128::from(i) + 1) } else { None };
        cells.push(CellRecord {
            id: 1000 + u128::from(i),
            vertices: vec![1, u128::from(i) + 1, u128::from(i) + 2],
            neighbors: vec![None, next, previous],
        });
    }
    DelaunayBackend::from_parts(vertices, cells, valid)
}


/// A triangulation of the engine as the library's backend holds it.
fn engine_snapshot_of(
    dt: &delaunay::DelaunayTriangulation<delaunay::geometry::kernel::AdaptiveKernel<f64>, i32, i32, 2>,
) -> DelaunayBackend2D<f64> {
    let tds = dt.tds();
    let vertices = tds
        .vertices()
        .map(|(_, vertex)| VertexRecord {
            id: vertex.uuid().as_u128(),
            coordinates: vertex.point().coords().to_vec(),
        })
        .collect();
    let cells = tds
        .simplices()
        .map(|(_, simplex)| CellRecord {
            id: simplex.uuid().as_u128(),
            vertices: simplex
                .vertex_uuid_iter(tds)
                .filter_map(Result::ok)
                .map(|id| id.as_u128())
                .collect(),
            neighbors: simplex.neighbors().map_or_else(Vec::new, |keys| {
                keys.map(|key| {
                    key.and_then(|key| tds.simplex_uuid_from_key(key))
                        .map(|id| id.as_u128())
                })
                .collect()
            }),
        })
        .collect();
    DelaunayBackend::from_parts(vertices, cells, dt.is_valid().is_ok())
}

/// A triangulation of random points of the square between 0 and 10, made
/// by the engine after the request has passed the library's rules.
fn random_points(
    vertices: u32,
    time_slices: u32,
    dimension: u8,
) -> Result<CdtTriangulation2D<f64>, CdtError> {
    generated(vertices, time_slices, dimension, None)
}

/// A triangulation of seeded random points.
fn seeded_points(
    vertices: u32,
    time_slices: u32,
    dimension: u8,
    seed: u64,
) -> Result<CdtTriangulation2D<f64>, CdtError> {
    generated(vertices, time_slices, dimension, Some(seed))
}

fn generated(
    vertices: u32,
    time_slices: u32,
    dimension: u8,
    seed: Option<u64>,
) -> Result<CdtTriangulation2D<f64>, CdtError> {
    CdtTriangulation2D::<f64>::check_generation_request(vertices, dimension)?;
    validate_generation_parameters(vertices, (0.0, 10.0))?;
    let dt = delaunay::geometry::util::generate_random_triangulation::<f64, i32, i32, 2>(
        vertices as usize,
        (0.0, 10.0),
        None,
        seed,
    )
    .map_err(|e| generation_failure(vertices, (0.0, 10.0), e.to_string()))?;
    Ok(CdtTriangulation::new(engine_snapshot_of(&dt), time_slices, dimension))
}

/// A triangulation over a fan, whose counts are known.
fn fan_triangulation(vertices: u32, time_slices: u32) -> CdtTriangulation2D<f64> {
    CdtTriangulation::new(fan_complex(vertices, true), time_slices, 2)
}

#[test]
fn triangulation_test_invalid_dimension() {
    let invalid_dimensions = [0, 1, 3, 4, 5];
    for dim in invalid_dimensions {
        let result = random_points(10, 3, dim);
        assert!(result.is_err(), "Should fail with dimension {dim}");

        if let Err(CdtError::UnsupportedDimension(d)) = result {
            assert_eq!(d, u32::from(dim), "Error should report correct dimension");
        } else {
            panic!("Expected UnsupportedDimension error for dimension {dim}");
        }
    }
}

#[test]
fn test_invalid_vertex_count() {
    let invalid_counts = [0, 1, 2];
    for count in invalid_counts {
        let result = random_points(count, 2, 2);
        assert!(result.is_err(), "Should fail with {count} vertices");

        if let Err(CdtError::InvalidParameters(msg)) = result {
            assert!(
                msg.contains("vertices must be >= 3"),
                "Error message should mention vertex requirement: {msg}"
            );
        } else {
            panic!("Expected InvalidParameters error for {count} vertices");
        }
    }
}

#[test]
fn generation_request_looks_at_the_dimension_first() {
    assert_eq!(
        CdtTriangulation2D::<f64>::check_generation_request(2, 3),
        Err(CdtError::UnsupportedDimension(3))
    );
    assert_eq!(
        CdtTriangulation2D::<f64>::check_generation_request(2, 2),
        Err(CdtError::InvalidParameters(
            "vertices must be >= 3 for 2D triangulation".to_string()
        ))
    );
    assert_eq!(CdtTriangulation2D::<f64>::check_generation_request(3, 2), Ok(()));
    assert_eq!(CdtTriangulation2D::<f64>::check_generation_request(u32::MAX, 2), Ok(()));
}

#[test]
fn test_geometry_access() {
    let triangulation = random_points(5, 2, 2).expect("Failed to create triangulation");
    let geometry = triangulation.geometry();
    assert!(geometry.vertex_count() > 0);
    assert!(geometry.is_valid());
    assert_eq!(geometry.dimension(), 2);
}

#[test]
fn test_basic_properties() {
    let triangulation = random_points(8, 4, 2).expect("Failed to create triangulation");
    assert_eq!(triangulation.dimension(), 2);
    assert_eq!(triangulation.time_slices(), 4);
    assert_eq!(triangulation.vertex_count(), 8);

    let edge_count = triangulation.edge_count();
    let face_count = triangulation.face_count();
    assert!(edge_count > 0, "Should have edges");
    assert!(face_count > 0, "Should have faces");
    assert!(edge_count >= triangulation.vertex_count());
    assert!(face_count >= 1, "Should have at least one face");
}

#[test]
fn test_metadata_initialization() {
    let triangulation = random_points(6, 3, 2).expect("Failed to create triangulation");
    assert_eq!(triangulation.dimension(), 2);
    assert_eq!(triangulation.time_slices(), 3);
    let debug_output = format!("{triangulation:?}");
    assert!(debug_output.contains("CdtTriangulation"));
    assert!(debug_output.contains("CdtMetadata"));
}

#[test]
fn test_creation_history() {
    let triangulation = random_points(5, 2, 2).expect("Failed to create triangulation");
    assert!(!triangulation.metadata().simulation_history.is_empty());
    assert_eq!(triangulation.metadata().simulation_history.len(), 1);
    match &triangulation.metadata().simulation_history[0] {
        SimulationEvent::Created {
            vertex_count,
            time_slices,
        } => {
            assert_eq!(*vertex_count, 5);
            assert_eq!(*time_slices, 2);
        }
        _ => panic!("First event should be Creation"),
    }
}

#[test]
fn test_geometry_mut_with_cache() {
    let mut triangulation = random_points(5, 2, 2).expect("Failed to create triangulation");
    let initial_edge_count = triangulation.edge_count();
    assert!(initial_edge_count > 0);
    let initial_mod_count = triangulation.metadata().modification_count;
    {
        let mut geometry_mut = triangulation.geometry_mut();
        let _ = geometry_mut.geometry_mut();
    }
    assert_eq!(
        triangulation.metadata().modification_count,
        initial_mod_count + 1
    );
    let recalculated_edge_count = triangulation.edge_count();
    assert_eq!(initial_edge_count, recalculated_edge_count);
}

#[test]
fn test_cache_refresh_functionality() {
    let mut triangulation = random_points(6, 2, 2).expect("Failed to create triangulation");
    let edge_count_1 = triangulation.edge_count();
    triangulation.refresh_cache();
    let edge_count_2 = triangulation.edge_count();
    assert_eq!(edge_count_1, edge_count_2);
    let edge_count_3 = triangulation.edge_count();
    assert_eq!(edge_count_1, edge_count_3);
}

#[test]
fn test_cache_invalidation_on_mutation() {
    let mut triangulation = random_points(6, 2, 2).expect("Failed to create triangulation");
    triangulation.refresh_cache();
    let cached_count = triangulation.edge_count();
    {
        let _geometry_mut = triangulation.geometry_mut();
    }
    let new_count = triangulation.edge_count();
    assert_eq!(cached_count, new_count);
}

#[test]
fn edge_count_is_never_stale() {
    // The in-memory backend can really change, so a stale count would show.
    let mut triangulation = CdtTriangulation::new(MockBackend::<f64>::create_triangle(), 1, 2);
    triangulation.refresh_cache();
    assert_eq!(triangulation.edge_count(), 3);
    assert_eq!(triangulation.edge_count(), 3);
    {
        let mut access = triangulation.geometry_mut();
        access.geometry_mut().clear();
    }
    assert_eq!(triangulation.edge_count(), 0);
    assert_eq!(triangulation.vertex_count(), 0);
    assert_eq!(triangulation.metadata().modification_count, 1);
    triangulation.refresh_cache();
    assert_eq!(triangulation.edge_count(), 0);
    {
        let mut access = triangulation.geometry_mut();
        access.geometry_mut().insert_vertex(&[1.0, 1.0]).unwrap();
        assert_eq!(access.vertex_count(), 1);
    }
    assert_eq!(triangulation.vertex_count(), 1);
    assert_eq!(triangulation.metadata().modification_count, 2);
}

#[test]
fn test_euler_characteristic() {
    const TRIANGULATION_SEED: u64 = 53;

    let triangulation = seeded_points(5, 2, 2, TRIANGULATION_SEED)
        .expect("Failed to create triangulation with fixed seed");

    let result = triangulation.geometry().is_valid();
    assert!(
        result,
        "Validation should succeed for closed triangulation: {result:?}"
    );
}

#[test]
fn test_validation_success() {
    const GOOD_SEED: u64 = 53;

    let triangulation =
        seeded_points(5, 2, 2, GOOD_SEED).expect("Failed to create triangulation");

    let result = triangulation.validate();
    assert!(
        result.is_ok(),
        "Validation should succeed for good triangulation: {result:?}"
    );
}

#[test]
fn test_validate_topology() {
    let seeds = [53, 87, 203];

    for seed in seeds {
        let triangulation =
            seeded_points(5, 1, 2, seed).expect("Failed to create triangulation");

        let result = triangulation.validate_topology();
        assert!(
            result.is_ok(),
            "Topology validation should succeed for seed {seed}: {result:?}"
        );
    }
}

#[test]
fn test_validate_causality_placeholder() {
    let triangulation = random_points(5, 2, 2).expect("Failed to create triangulation");

    let result = triangulation.validate_causality();
    assert!(
        result.is_ok(),
        "Causality validation should succeed (placeholder implementation)"
    );
}

#[test]
fn test_validate_foliation_placeholder() {
    let triangulation = random_points(5, 3, 2).expect("Failed to create triangulation");

    let result = triangulation.validate_foliation();
    assert!(
        result.is_ok(),
        "Foliation validation should succeed (placeholder implementation)"
    );
}

#[test]
fn validation_accepts_exactly_two_euler_characteristics() {
    // A complex of `cells` separate triangles over `vertices` vertices has
    // 3 * cells edges, so its Euler characteristic is vertices - 2 * cells.
    let scattered = |vertices: u32, cells: u32| -> CdtTriangulation2D<f64> {
        let records = (0..vertices)
            .map(|i| VertexRecord { id: u128::from(i), coordinates: vec![0.0, 0.0] })
            .collect();
        let triangles = (0..cells)
            .map(|c| CellRecord {
                id: 500 + u128::from(c),
                vertices: vec![
                    u128::from(3 * c),
                    u128::from(3 * c + 1),
                    u128::from(3 * c + 2),
                ],
                neighbors: vec![None, None, None],
            })
            .collect();
        CdtTriangulation::new(DelaunayBackend::from_parts(records, triangles, true), 1, 2)
    };
    for (vertices, cells, chi) in [(3, 1, 1), (4, 1, 2), (5, 1, 3), (6, 2, 2), (6, 3, 0), (9, 5, -1)] {
        let triangulation = scattered(vertices, cells);
        assert_eq!(triangulation.geometry().euler_characteristic(), chi);
        let result = triangulation.validate();
        if chi == 1 || chi == 2 {
            assert_eq!(result, Ok(()));
        } else {
            assert_eq!(
                result,
                Err(CdtError::InvalidParameters(format!(
                    "Invalid topology: Euler characteristic {chi} unexpected for 2D triangulation (expected 1 for boundary or 2 for closed surface)"
                )))
            );
        }
    }
    // Outside dimension 2 the Euler characteristic is not looked at.
    let backend = DelaunayBackend::<f64, 2>::from_parts(
        (0..5).map(|i| VertexRecord { id: i, coordinates: vec![] }).collect(),
        vec![CellRecord { id: 9, vertices: vec![0, 1, 2], neighbors: vec![] }],
        true,
    );
    assert_eq!(CdtTriangulation::new(backend, 1, 3).validate(), Ok(()));
}

#[test]
fn validation_rejects_an_invalid_backend() {
    let triangulation = CdtTriangulation::new(fan_complex(5, false), 1, 2);
    assert_eq!(
        triangulation.validate(),
        Err(CdtError::InvalidParameters(
            "Invalid geometry: triangulation is not valid".to_string()
        ))
    );
    let empty = CdtTriangulation::new(MockBackend::<f64>::new(2), 1, 2);
    assert_eq!(
        empty.validate(),
        Err(CdtError::InvalidParameters(
            "Invalid geometry: triangulation is not valid".to_string()
        ))
    );
}

#[test]
fn test_geometry_mut_wrapper() {
    let mut triangulation = random_points(5, 2, 2).expect("Failed to create triangulation");
    {
        let mut wrapper = triangulation.geometry_mut();
        assert!(wrapper.vertex_count() > 0);
        assert!(wrapper.is_valid());
        let geometry = wrapper.geometry_mut();
        assert!(geometry.vertex_count() > 0);
    }
}

#[test]
fn test_simulation_event_recording() {
    let mut triangulation = random_points(5, 2, 2).expect("Failed to create triangulation");
    let initial_history_len = triangulation.metadata().simulation_history.len();
    {
        let mut wrapper = triangulation.geometry_mut();
        wrapper.record_event(SimulationEvent::MoveAttempted {
            move_type: "test_move".to_string(),
            step: 1,
        });
        wrapper.record_event(SimulationEvent::MoveAccepted {
            move_type: "test_move".to_string(),
            step: 1,
            action_change: -0.5,
        });
        wrapper.record_event(SimulationEvent::MeasurementTaken {
            step: 2,
            action: 10.5,
        });
    }
    assert_eq!(
        triangulation.metadata().simulation_history.len(),
        initial_history_len + 3
    );
    let history = &triangulation.metadata().simulation_history;
    match &history[initial_history_len] {
        SimulationEvent::MoveAttempted { move_type, step } => {
            assert_eq!(move_type, "test_move");
            assert_eq!(*step, 1);
        }
        _ => panic!("Expected MoveAttempted event"),
    }
    match &history[initial_history_len + 1] {
        SimulationEvent::MoveAccepted {
            move_type,
            step,
            action_change,
        } => {
            assert_eq!(move_type, "test_move");
            assert_eq!(*step, 1);
            assert_eq!(*action_change, -0.5);
        }
        _ => panic!("Expected MoveAccepted event"),
    }
    match &history[initial_history_len + 2] {
        SimulationEvent::MeasurementTaken { step, action } => {
            assert_eq!(*step, 2);
            assert_eq!(*action, 10.5);
        }
        _ => panic!("Expected MeasurementTaken event"),
    }
}

#[test]
fn test_modification_count() {
    let mut triangulation = random_points(5, 2, 2).expect("Failed to create triangulation");
    assert_eq!(triangulation.metadata().modification_count, 0);
    {
        let _wrapper = triangulation.geometry_mut();
    }
    assert_eq!(triangulation.metadata().modification_count, 1);
    {
        let _wrapper = triangulation.geometry_mut();
    }
    assert_eq!(triangulation.metadata().modification_count, 2);
    let _geometry = triangulation.geometry();
    let _edge_count = triangulation.edge_count();
    assert_eq!(triangulation.metadata().modification_count, 2);
    triangulation.refresh_cache();
    assert_eq!(triangulation.metadata().modification_count, 2);
}

#[test]
fn test_zero_time_slices() {
    let result = random_points(5, 0, 2);
    // This should still work - time_slices is just metadata
    assert!(result.is_ok(), "Should allow 0 time slices");

    let triangulation = result.unwrap();
    assert_eq!(triangulation.time_slices(), 0);
}

#[test]
fn test_large_time_slices() {
    let result = random_points(5, 100, 2);
    assert!(result.is_ok(), "Should allow large time slice count");

    let triangulation = result.unwrap();
    assert_eq!(triangulation.time_slices(), 100);
}

#[test]
fn test_consistency_across_methods() {
    let triangulation = random_points(8, 3, 2).expect("Failed to create triangulation");
    assert_eq!(triangulation.vertex_count(), triangulation.geometry().vertex_count());
    assert_eq!(triangulation.face_count(), triangulation.geometry().face_count());
    assert_eq!(triangulation.edge_count(), triangulation.geometry().edge_count());
}

#[test]
fn test_debug_formatting() {
    let triangulation = random_points(5, 2, 2).expect("Failed to create triangulation");
    let debug_str = format!("{triangulation:?}");
    assert!(debug_str.contains("CdtTriangulation"));
    assert!(debug_str.contains("geometry"));
    assert!(debug_str.contains("metadata"));
    assert!(debug_str.contains("cache"));
}

#[test]
fn test_simulation_event_debug() {
    let events: Vec<SimulationEvent<f64>> = vec![
        SimulationEvent::Created {
            vertex_count: 5,
            time_slices: 2,
        },
        SimulationEvent::MoveAttempted {
            move_type: "flip".to_string(),
            step: 1,
        },
        SimulationEvent::MoveAccepted {
            move_type: "flip".to_string(),
            step: 1,
            action_change: 0.5,
        },
        SimulationEvent::MeasurementTaken {
            step: 2,
            action: 15.5,
        },
    ];
    for event in events {
        let debug_str = format!("{event:?}");
        assert!(!debug_str.is_empty());
    }
}

#[test]
fn test_cdt_metadata_clone() {
    let triangulation = random_points(5, 2, 2).expect("Failed to create triangulation");
    let metadata1 = triangulation.metadata();
    let metadata2 = metadata1.clone();
    assert_eq!(metadata1.time_slices, metadata2.time_slices);
    assert_eq!(metadata1.dimension, metadata2.dimension);
    assert_eq!(metadata1.modification_count, metadata2.modification_count);
    assert_eq!(
        metadata1.simulation_history.len(),
        metadata2.simulation_history.len()
    );
}

#[test]
fn test_extreme_vertex_counts() {
    let min_tri = random_points(3, 1, 2).expect("Failed to create triangulation");
    assert_eq!(min_tri.vertex_count(), 3);
    let large_tri = random_points(50, 1, 2).expect("Failed to create triangulation");
    assert_eq!(large_tri.vertex_count(), 50);
    assert!(large_tri.edge_count() > 50);
    assert!(large_tri.face_count() > 10);
}

#[test]
fn cache_consistency() {
    for vertices in 4..25 {
        let mut triangulation = fan_triangulation(vertices, 1 + vertices % 3);
        let count1 = triangulation.edge_count();
        let count2 = triangulation.edge_count();
        assert_eq!(count1, count2);
        triangulation.refresh_cache();
        let count3 = triangulation.edge_count();
        assert_eq!(count1, count3);
        assert_eq!(count1, 2 * vertices as usize - 3);
    }
}
