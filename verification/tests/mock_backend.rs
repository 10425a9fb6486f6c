use causal_dynamical_triangulations::cdt::triangulation::CdtTriangulation;
use causal_dynamical_triangulations::errors::CdtError;
use causal_dynamical_triangulations::geometry::backends::mock::{MockBackend, MockError};
use causal_dynamical_triangulations::geometry::operations::TriangulationOps;
use causal_dynamical_triangulations::geometry::traits::{
    FlipResult, GeometryBackend, SubdivisionResult, TriangulationMut, TriangulationQuery,
};

#[test]
fn test_mock_backend_creation() {
    let backend = MockBackend::<f64>::new(2);
    assert_eq!(backend.dimension(), 2);
    assert_eq!(backend.vertex_count(), 0);
}

#[test]
fn test_mock_triangle() {
    let backend = MockBackend::<f64>::create_triangle();
    assert_eq!(backend.vertex_count(), 3);
    assert_eq!(backend.edge_count(), 3);
    assert_eq!(backend.face_count(), 1);
    assert!(backend.is_valid());
}

#[test]
fn test_is_delaunay_delegates_to_is_valid() {
    let backend = MockBackend::<f64>::create_triangle();

    // For our mock backend, is_delaunay should delegate to is_valid
    // which returns true for a basic triangle
    assert!(backend.is_delaunay());
}

#[test]
fn test_triangulation_ops_trait_available() {
    let backend = MockBackend::<f64>::create_triangle();

    assert!(backend.is_delaunay());
    assert_eq!(backend.convex_hull().len(), 0);
    assert_eq!(backend.boundary_edges().len(), 0);

    let hull: Vec<_> = backend.convex_hull();
    let boundary: Vec<_> = backend.boundary_edges();
    assert!(hull.is_empty());
    assert!(boundary.is_empty());
}

#[test]
fn minimal_triangle_has_euler_characteristic_one() {
    let backend = MockBackend::<f64>::create_triangle();
    assert_eq!(backend.edge_count(), 3);
    assert_eq!(backend.face_count(), 1);
    assert_eq!(backend.euler_characteristic(), 1);
    assert_eq!(backend.backend_name(), "mock");
}

#[test]
fn mock_triangle_holds_what_was_placed() {
    let backend = MockBackend::<f64>::create_triangle();
    let mut vertices = backend.vertices();
    assert_eq!(vertices.len(), 3);
    let mut coordinates: Vec<Vec<f64>> = vertices
        .iter()
        .map(|v| backend.vertex_coordinates(v).unwrap())
        .collect();
    coordinates.sort_by(|a, b| a.partial_cmp(b).unwrap());
    assert_eq!(coordinates, vec![vec![0.0, 0.0], vec![0.5, 1.0], vec![1.0, 0.0]]);

    let faces = backend.faces();
    assert_eq!(faces.len(), 1);
    let corners = backend.face_vertices(&faces[0]).unwrap();
    assert_eq!(corners.len(), 3);
    for corner in &corners {
        assert!(vertices.contains(corner));
    }
    let edges = backend.edges();
    assert_eq!(edges.len(), 3);
    for edge in &edges {
        let (a, b) = backend.edge_endpoints(edge).unwrap();
        assert_ne!(a, b);
        assert!(vertices.contains(&a) && vertices.contains(&b));
    }
    let vertex = vertices.remove(0);
    assert!(backend.adjacent_faces(&vertex).unwrap().is_empty());
    assert!(backend.incident_edges(&vertex).unwrap().is_empty());
    assert!(backend.face_neighbors(&faces[0]).unwrap().is_empty());
}

#[test]
fn mock_mutation() {
    let mut backend = MockBackend::<f64>::create_triangle();
    let inserted = backend.insert_vertex(&[2.0, 3.0]).unwrap();
    assert_eq!(backend.vertex_count(), 4);
    assert_eq!(backend.vertex_coordinates(&inserted).unwrap(), vec![2.0, 3.0]);

    backend.move_vertex(inserted.clone(), &[4.0, 5.0]).unwrap();
    assert_eq!(backend.vertex_coordinates(&inserted).unwrap(), vec![4.0, 5.0]);
    assert_eq!(backend.vertex_count(), 4);

    let affected = backend.remove_vertex(inserted.clone()).unwrap();
    assert!(affected.is_empty());
    assert_eq!(backend.vertex_count(), 3);

    // The handle is unknown now.
    assert_eq!(
        backend.vertex_coordinates(&inserted).unwrap_err().to_string(),
        "Invalid vertex handle: 3"
    );
    assert!(matches!(backend.remove_vertex(inserted.clone()), Err(MockError::Vertex(3))));
    assert!(matches!(backend.move_vertex(inserted, &[0.0]), Err(MockError::Vertex(3))));
    assert_eq!(backend.vertex_count(), 3);

    let edge = backend.edges().remove(0);
    assert!(backend.can_flip_edge(&edge));
    let flipped: FlipResult<_, _, _> = backend.flip_edge(edge.clone()).unwrap();
    assert_eq!(flipped.new_edge, edge);
    assert!(flipped.affected_faces.is_empty());

    let face = backend.faces().remove(0);
    let outcome: SubdivisionResult<_, _, _> = backend.subdivide_face(face.clone(), &[0.5, 0.5]).unwrap();
    assert_eq!(outcome.removed_face, face);
    assert!(outcome.new_faces.is_empty());
    assert_eq!(backend.vertex_coordinates(&outcome.new_vertex).unwrap(), vec![0.5, 0.5]);
    assert_eq!(backend.vertex_count(), 4);
    assert_eq!(backend.face_count(), 1);

    backend.reserve_capacity(100, 100);
    assert_eq!(backend.vertex_count(), 4);

    backend.clear();
    assert_eq!(backend.vertex_count(), 0);
    assert_eq!(backend.edge_count(), 0);
    assert_eq!(backend.face_count(), 0);
    assert!(!backend.is_valid());
    assert_eq!(backend.dimension(), 2);
    let first = backend.insert_vertex(&[1.0]).unwrap();
    assert_eq!(backend.vertices(), vec![first]);
}

#[test]
fn mock_error_messages() {
    assert_eq!(MockError::Vertex(12).to_string(), "Invalid vertex handle: 12");
    assert_eq!(MockError::Edge(0).to_string(), "Invalid edge handle: 0");
    assert_eq!(MockError::Face(907).to_string(), "Invalid face handle: 907");
    assert_eq!(MockError::Operation("nope".to_string()).to_string(), "Invalid operation: nope");
}

#[test]
fn result_types_hold_what_they_are_given() {
    let flip: FlipResult<u8, u16, u32> = FlipResult::new(7, vec![1, 2]);
    assert_eq!(flip.new_edge, 7);
    assert_eq!(flip.affected_faces, vec![1, 2]);
    let copy = flip.clone();
    assert_eq!(copy.new_edge, 7);
    assert_eq!(copy.affected_faces, vec![1, 2]);
    let subdivision: SubdivisionResult<u8, u16, u32> = SubdivisionResult::new(3, vec![4, 5, 6], 9);
    assert_eq!(subdivision.new_vertex, 3);
    assert_eq!(subdivision.new_faces, vec![4, 5, 6]);
    assert_eq!(subdivision.removed_face, 9);
    let copy = subdivision.clone();
    assert_eq!(copy.new_vertex, 3);
    assert_eq!(copy.new_faces, vec![4, 5, 6]);
    assert_eq!(copy.removed_face, 9);
}

#[test]
fn adjacency_queries_reject_unknown_handles() {
    let mut backend = MockBackend::<f64>::create_triangle();
    let gone = backend.insert_vertex(&[7.0, 7.0]).unwrap();
    backend.remove_vertex(gone.clone()).unwrap();
    assert!(matches!(backend.adjacent_faces(&gone), Err(MockError::Vertex(3))));
    assert!(matches!(backend.incident_edges(&gone), Err(MockError::Vertex(3))));
    let held = backend.vertices().remove(0);
    assert!(backend.adjacent_faces(&held).unwrap().is_empty());
    assert!(backend.incident_edges(&held).unwrap().is_empty());
    let face = backend.faces().remove(0);
    assert!(backend.face_neighbors(&face).unwrap().is_empty());
    backend.clear();
    assert!(matches!(backend.face_neighbors(&face), Err(MockError::Face(0))));
    assert!(matches!(backend.adjacent_faces(&held), Err(MockError::Vertex(_))));
}

#[test]
fn validation_follows_the_vertices_of_the_triangle() {
    // Three vertices, three edges, one face: Euler characteristic 1.
    let triangle = MockBackend::<f64>::create_triangle();
    assert_eq!(CdtTriangulation::new(triangle, 1, 2).validate(), Ok(()));

    // One vertex less: Euler characteristic 0.
    let mut backend = MockBackend::<f64>::create_triangle();
    let handle = backend.vertices().remove(0);
    backend.remove_vertex(handle).unwrap();
    assert_eq!(backend.euler_characteristic(), 0);
    assert!(backend.is_valid());
    assert!(matches!(
        CdtTriangulation::new(backend, 1, 2).validate(),
        Err(CdtError::InvalidParameters(_))
    ));

    // One vertex more: Euler characteristic 2; two more: 3.
    let mut backend = MockBackend::<f64>::create_triangle();
    backend.insert_vertex(&[2.0, 2.0]).unwrap();
    assert_eq!(backend.edge_count(), 3);
    assert_eq!(backend.face_count(), 1);
    assert_eq!(backend.euler_characteristic(), 2);
    let mut more = backend.clone();
    assert_eq!(CdtTriangulation::new(backend, 1, 2).validate(), Ok(()));
    more.insert_vertex(&[3.0, 3.0]).unwrap();
    assert_eq!(more.euler_characteristic(), 3);
    assert!(matches!(
        CdtTriangulation::new(more, 1, 2).validate(),
        Err(CdtError::InvalidParameters(_))
    ));
}
