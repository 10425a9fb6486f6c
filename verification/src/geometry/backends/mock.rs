//! In-memory backend with hand-placed vertices, edges and faces.
//!
//! It keeps no geometric invariant of its own: what is inserted is what the
//! queries report. That makes it a controllable stand-in wherever a real
//! geometric engine is not wanted.

use crate::geometry::traits::{
    CoordinateScalar, FlipResult, GeometryBackend, SubdivisionResult, TriangulationMut,
    TriangulationQuery,
};
use std::collections::HashMap;
use vstd::prelude::*;
use vstd::std_specs::convert::FromSpec;
use vstd::std_specs::iter::IteratorSpec;
use vstd::std_specs::ops::DivSpec;
use vstd::string::StringExecFns;

verus! {

broadcast use vstd::std_specs::hash::group_hash_axioms;

/// Vertex handle of the in-memory backend.
#[derive(Debug, Clone, PartialEq, Eq, Hash)]
pub struct MockVertexHandle(usize);

/// Edge handle of the in-memory backend.
#[derive(Debug, Clone, PartialEq, Eq, Hash)]
pub struct MockEdgeHandle(usize);

/// Face handle of the in-memory backend.
#[derive(Debug, Clone, PartialEq, Eq, Hash)]
pub struct MockFaceHandle(usize);

impl MockVertexHandle {
    /// The identifier this handle stands for.
    pub closed spec fn id(&self) -> usize {
        self.0
    }
}

impl MockEdgeHandle {
    /// The identifier this handle stands for.
    pub closed spec fn id(&self) -> usize {
        self.0
    }
}

impl MockFaceHandle {
    /// The identifier this handle stands for.
    pub closed spec fn id(&self) -> usize {
        self.0
    }
}

/// Errors of the in-memory backend.
#[derive(Debug)]
pub enum MockError {
    /// Invalid vertex handle provided.
    Vertex(usize),
    /// Invalid edge handle provided.
    Edge(usize),
    /// Invalid face handle provided.
    Face(usize),
    /// Invalid operation attempted.
    Operation(String),
}

impl MockError {
    /// The human-readable message of this error.
    pub open spec fn display_text(&self) -> Seq<char> {
        match self {
            MockError::Vertex(id) => "Invalid vertex handle: "@ + crate::text::decimal(*id as nat),
            MockError::Edge(id) => "Invalid edge handle: "@ + crate::text::decimal(*id as nat),
            MockError::Face(id) => "Invalid face handle: "@ + crate::text::decimal(*id as nat),
            MockError::Operation(msg) => "Invalid operation: "@ + msg@,
        }
    }

    /// Renders the message of this error.
    pub fn to_string(&self) -> (text: String)
        ensures
            text@ == self.display_text(),
    {
        match self {
            MockError::Vertex(id) => {
                let mut text = String::from_str("Invalid vertex handle: ");
                let number = crate::text::decimal_string(*id as u64);
                text.append(number.as_str());
                text
            },
            MockError::Edge(id) => {
                let mut text = String::from_str("Invalid edge handle: ");
                let number = crate::text::decimal_string(*id as u64);
                text.append(number.as_str());
                text
            },
            MockError::Face(id) => {
                let mut text = String::from_str("Invalid face handle: ");
                let number = crate::text::decimal_string(*id as u64);
                text.append(number.as_str());
                text
            },
            MockError::Operation(msg) => {
                let mut text = String::from_str("Invalid operation: ");
                text.append(msg.as_str());
                text
            },
        }
    }
}

/// The in-memory backend.
#[derive(Debug, Clone)]
pub struct MockBackend<S: CoordinateScalar> {
    vertices: HashMap<usize, Vec<S>>,
    edges: HashMap<usize, (usize, usize)>,
    faces: HashMap<usize, Vec<usize>>,
    dimension: usize,
    next_vertex_id: usize,
    next_edge_id: usize,
    next_face_id: usize,
}

/// Whether division on `S` is defined for every pair of operands.
pub open spec fn division_total<S: core::ops::Div<Output = S>>() -> bool {
    forall|a: S, b: S| #[trigger] a.div_req(b)
}

/// A copy of a slice as a vector.
fn copy_of<T: Copy>(items: &[T]) -> (copy: Vec<T>)
    ensures
        copy@ == items@,
{
    let mut copy: Vec<T> = Vec::new();
    let mut i: usize = 0;
    while i < items.len()
        invariant
            i <= items@.len(),
            copy@ == items@.take(i as int),
        decreases items@.len() - i,
    {
        copy.push(items[i]);
        i = i + 1;
    }
    copy
}

impl<S: CoordinateScalar> MockBackend<S> {
    /// Identifiers of the vertices held.
    pub closed spec fn vertex_ids(&self) -> Set<usize> {
        self.vertices@.dom()
    }

    /// Coordinates stored for vertex `id`.
    pub closed spec fn coordinates_of(&self, id: usize) -> Seq<S> {
        self.vertices@[id]@
    }

    /// Identifiers of the edges held.
    pub closed spec fn edge_ids(&self) -> Set<usize> {
        self.edges@.dom()
    }

    /// Endpoint identifiers stored for edge `id`.
    pub closed spec fn endpoints_of(&self, id: usize) -> (usize, usize) {
        self.edges@[id]
    }

    /// Identifiers of the faces held.
    pub closed spec fn face_ids(&self) -> Set<usize> {
        self.faces@.dom()
    }

    /// Vertex identifiers stored for face `id`.
    pub closed spec fn corners_of(&self, id: usize) -> Seq<usize> {
        self.faces@[id]@
    }

    /// The identifier the next inserted vertex gets.
    pub closed spec fn upcoming_vertex_id(&self) -> usize {
        self.next_vertex_id
    }

    /// The dimension given at construction.
    pub closed spec fn declared_dimension(&self) -> usize {
        self.dimension
    }

    /// Whether `other` holds the same edges and faces as `self`, each with
    /// the same endpoints and corners, and has the same dimension.
    pub open spec fn same_edges_and_faces(&self, other: &Self) -> bool {
        &&& self.edge_ids() == other.edge_ids()
        &&& self.face_ids() == other.face_ids()
        &&& forall|id: usize|
            #![trigger self.endpoints_of(id)]
            self.endpoints_of(id) == other.endpoints_of(id)
        &&& forall|id: usize|
            #![trigger self.corners_of(id)]
            self.corners_of(id) == other.corners_of(id)
        &&& self.declared_dimension() == other.declared_dimension()
    }

    /// Whether `other` holds the same vertices as `self`, with the same
    /// coordinates, apart from the vertex `id`.
    pub open spec fn same_vertices_except(&self, other: &Self, id: usize) -> bool {
        forall|v: usize|
            #![trigger self.coordinates_of(v)]
            #![trigger self.vertex_ids().contains(v)]
            v != id ==> self.vertex_ids().contains(v) == other.vertex_ids().contains(v)
                && self.coordinates_of(v) == other.coordinates_of(v)
    }

    /// Create an empty backend of the given dimension.
    pub fn new(dimension: usize) -> (backend: Self)
        ensures
            backend.vertex_ids() == Set::<usize>::empty(),
            backend.edge_ids() == Set::<usize>::empty(),
            backend.face_ids() == Set::<usize>::empty(),
            backend.declared_dimension() == dimension,
            backend.upcoming_vertex_id() == 0,
    {
        let backend = Self {
            vertices: HashMap::new(),
            edges: HashMap::new(),
            faces: HashMap::new(),
            dimension,
            next_vertex_id: 0,
            next_edge_id: 0,
            next_face_id: 0,
        };
        assert(backend.vertices@.dom() =~= Set::<usize>::empty());
        assert(backend.edges@.dom() =~= Set::<usize>::empty());
        assert(backend.faces@.dom() =~= Set::<usize>::empty());
        backend
    }
}

impl<S: CoordinateScalar + From<u8> + core::ops::Div<Output = S>> MockBackend<S> {
    /// Create a single triangle: vertices 0, 1, 2 at (0, 0), (1, 0) and
    /// (1/2, 1), edges (0, 1), (1, 2), (2, 0) and the face [0, 1, 2].
    pub fn create_triangle() -> (backend: Self)
        requires
            division_total::<S>(),
        ensures
            backend.vertex_ids() == set![0usize, 1usize, 2usize],
            backend.edge_ids() == set![0usize, 1usize, 2usize],
            backend.face_ids() == set![0usize],
            backend.endpoints_of(0) == (0usize, 1usize),
            backend.endpoints_of(1) == (1usize, 2usize),
            backend.endpoints_of(2) == (2usize, 0usize),
            backend.corners_of(0) == seq![0usize, 1usize, 2usize],
            backend.coordinates_of(0).len() == 2,
            backend.coordinates_of(1).len() == 2,
            backend.coordinates_of(2).len() == 2,
            backend.declared_dimension() == 2,
            backend.upcoming_vertex_id() == 3,
            backend.spec_vertex_count() == 3,
            backend.spec_edge_count() == 3,
            backend.spec_face_count() == 1,
            backend.spec_is_valid(),
    {
        let mut backend = Self::new(2);
        let zero: S = S::from(0u8);
        let one: S = S::from(1u8);
        let two: S = S::from(2u8);
        let half: S = one / two;

        let mut first: Vec<S> = Vec::new();
        first.push(zero);
        first.push(zero);
        let mut second: Vec<S> = Vec::new();
        second.push(one);
        second.push(zero);
        let mut third: Vec<S> = Vec::new();
        third.push(half);
        third.push(one);
        backend.vertices.insert(0, first);
        backend.vertices.insert(1, second);
        backend.vertices.insert(2, third);
        backend.next_vertex_id = 3;

        backend.edges.insert(0, (0, 1));
        backend.edges.insert(1, (1, 2));
        backend.edges.insert(2, (2, 0));
        backend.next_edge_id = 3;

        let mut corners: Vec<usize> = Vec::new();
        corners.push(0);
        corners.push(1);
        corners.push(2);
        backend.faces.insert(0, corners);
        backend.next_face_id = 1;

        proof {
            assert(backend.vertices@.dom() =~= set![0usize, 1usize, 2usize]);
            assert(backend.edges@.dom() =~= set![0usize, 1usize, 2usize]);
            assert(backend.faces@.dom() =~= set![0usize]);
            assert(backend.faces@[0]@ =~= seq![0usize, 1usize, 2usize]);
            lemma_three_elements();
        }
        backend
    }
}

/// The sets {0, 1, 2} and {0} have three elements and one element.
proof fn lemma_three_elements()
    ensures
        set![0usize, 1usize, 2usize].len() == 3,
        set![0usize].len() == 1,
{
    let empty = Set::<usize>::empty();
    assert(set![0usize] =~= empty.insert(0usize));
    assert(set![0usize, 1usize, 2usize] =~= empty.insert(0usize).insert(1usize).insert(2usize));
}

impl<S: CoordinateScalar> GeometryBackend for MockBackend<S> {
    type Coordinate = S;

    type VertexHandle = MockVertexHandle;

    type EdgeHandle = MockEdgeHandle;

    type FaceHandle = MockFaceHandle;

    type Error = MockError;

    /// The name of this backend: `mock`.
    fn backend_name(&self) -> (name: &'static str)
        ensures
            name@ == "mock"@,
    {
        "mock"
    }
}

impl<S: CoordinateScalar> TriangulationQuery for MockBackend<S> {
    open spec fn spec_vertex_count(&self) -> nat {
        self.vertex_ids().len()
    }

    open spec fn spec_edge_count(&self) -> nat {
        self.edge_ids().len()
    }

    open spec fn spec_face_count(&self) -> nat {
        self.face_ids().len()
    }

    open spec fn spec_dimension(&self) -> nat {
        self.declared_dimension() as nat
    }

    open spec fn spec_is_valid(&self) -> bool {
        self.vertex_ids().len() > 0 && self.face_ids().len() > 0
    }

    fn vertex_count(&self) -> (n: usize) {
        self.vertices.len()
    }

    fn edge_count(&self) -> (n: usize) {
        self.edges.len()
    }

    fn face_count(&self) -> (n: usize) {
        self.faces.len()
    }

    fn dimension(&self) -> (n: usize) {
        self.dimension
    }

    fn vertices(&self) -> (handles: Vec<MockVertexHandle>)
        ensures
            handles@.map_values(|h: MockVertexHandle| h.id()).no_duplicates(),
            handles@.map_values(|h: MockVertexHandle| h.id()).to_set() == self.vertex_ids(),
    {
        let mut handles: Vec<MockVertexHandle> = Vec::new();
        for k in it: self.vertices.keys()
            invariant
                handles@.len() == it.index(),
                forall|j: int| 0 <= j < handles@.len() ==> handles@[j].0 == *it.seq()[j],
                it.seq() == self.vertices.keys().remaining(),
        {
            handles.push(MockVertexHandle(*k));
        }
        proof {
            let all = self.vertices.keys().remaining();
            assert(handles@.map_values(|h: MockVertexHandle| h.id()) =~= all.unref());
        }
        handles
    }

    fn edges(&self) -> (handles: Vec<MockEdgeHandle>)
        ensures
            handles@.map_values(|h: MockEdgeHandle| h.id()).no_duplicates(),
            handles@.map_values(|h: MockEdgeHandle| h.id()).to_set() == self.edge_ids(),
    {
        let mut handles: Vec<MockEdgeHandle> = Vec::new();
        for k in it: self.edges.keys()
            invariant
                handles@.len() == it.index(),
                forall|j: int| 0 <= j < handles@.len() ==> handles@[j].0 == *it.seq()[j],
                it.seq() == self.edges.keys().remaining(),
        {
            handles.push(MockEdgeHandle(*k));
        }
        proof {
            let all = self.edges.keys().remaining();
            assert(handles@.map_values(|h: MockEdgeHandle| h.id()) =~= all.unref());
        }
        handles
    }

    fn faces(&self) -> (handles: Vec<MockFaceHandle>)
        ensures
            handles@.map_values(|h: MockFaceHandle| h.id()).no_duplicates(),
            handles@.map_values(|h: MockFaceHandle| h.id()).to_set() == self.face_ids(),
    {
        let mut handles: Vec<MockFaceHandle> = Vec::new();
        for k in it: self.faces.keys()
            invariant
                handles@.len() == it.index(),
                forall|j: int| 0 <= j < handles@.len() ==> handles@[j].0 == *it.seq()[j],
                it.seq() == self.faces.keys().remaining(),
        {
            handles.push(MockFaceHandle(*k));
        }
        proof {
            let all = self.faces.keys().remaining();
            assert(handles@.map_values(|h: MockFaceHandle| h.id()) =~= all.unref());
        }
        handles
    }

    fn vertex_coordinates(&self, vertex: &MockVertexHandle) -> (result: Result<Vec<S>, MockError>)
        ensures
            match result {
                Ok(coords) => self.vertex_ids().contains(vertex.id()) && coords@
                    == self.coordinates_of(vertex.id()),
                Err(e) => !self.vertex_ids().contains(vertex.id()) && e == MockError::Vertex(
                    vertex.id(),
                ),
            },
    {
        match self.vertices.get(&vertex.0) {
            Some(coords) => Ok(copy_of(coords.as_slice())),
            None => Err(MockError::Vertex(vertex.0)),
        }
    }

    fn face_vertices(&self, face: &MockFaceHandle) -> (result: Result<
        Vec<MockVertexHandle>,
        MockError,
    >)
        ensures
            match result {
                Ok(corners) => self.face_ids().contains(face.id()) && corners@.map_values(
                    |h: MockVertexHandle| h.id(),
                ) == self.corners_of(face.id()),
                Err(e) => !self.face_ids().contains(face.id()) && e == MockError::Face(face.id()),
            },
    {
        match self.faces.get(&face.0) {
            Some(indices) => {
                let mut corners: Vec<MockVertexHandle> = Vec::new();
                let mut i: usize = 0;
                while i < indices.len()
                    invariant
                        i <= indices@.len(),
                        corners@.len() == i,
                        forall|j: int| 0 <= j < i ==> corners@[j].0 == indices@[j],
                    decreases indices@.len() - i,
                {
                    corners.push(MockVertexHandle(indices[i]));
                    i = i + 1;
                }
                assert(corners@.map_values(|h: MockVertexHandle| h.id()) =~= indices@);
                Ok(corners)
            },
            None => Err(MockError::Face(face.0)),
        }
    }

    fn edge_endpoints(&self, edge: &MockEdgeHandle) -> (result: Result<
        (MockVertexHandle, MockVertexHandle),
        MockError,
    >)
        ensures
            match result {
                Ok(ends) => self.edge_ids().contains(edge.id()) && (ends.0.id(), ends.1.id())
                    == self.endpoints_of(edge.id()),
                Err(e) => !self.edge_ids().contains(edge.id()) && e == MockError::Edge(edge.id()),
            },
    {
        match self.edges.get(&edge.0) {
            Some(ends) => Ok((MockVertexHandle(ends.0), MockVertexHandle(ends.1))),
            None => Err(MockError::Edge(edge.0)),
        }
    }

    /// Adjacency is not tracked: the answer for a vertex that is held is
    /// always empty. An unknown vertex is an error.
    fn adjacent_faces(&self, vertex: &MockVertexHandle) -> (result: Result<
        Vec<MockFaceHandle>,
        MockError,
    >)
        ensures
            match result {
                Ok(faces) => self.vertex_ids().contains(vertex.id()) && faces@.len() == 0,
                Err(e) => !self.vertex_ids().contains(vertex.id()) && e == MockError::Vertex(
                    vertex.id(),
                ),
            },
    {
        if self.vertices.contains_key(&vertex.0) {
            Ok(Vec::new())
        } else {
            Err(MockError::Vertex(vertex.0))
        }
    }

    /// Incidence is not tracked: the answer for a vertex that is held is
    /// always empty. An unknown vertex is an error.
    fn incident_edges(&self, vertex: &MockVertexHandle) -> (result: Result<
        Vec<MockEdgeHandle>,
        MockError,
    >)
        ensures
            match result {
                Ok(edges) => self.vertex_ids().contains(vertex.id()) && edges@.len() == 0,
                Err(e) => !self.vertex_ids().contains(vertex.id()) && e == MockError::Vertex(
                    vertex.id(),
                ),
            },
    {
        if self.vertices.contains_key(&vertex.0) {
            Ok(Vec::new())
        } else {
            Err(MockError::Vertex(vertex.0))
        }
    }

    /// Neighborhood is not tracked: the answer for a face that is held is
    /// always empty. An unknown face is an error.
    fn face_neighbors(&self, face: &MockFaceHandle) -> (result: Result<
        Vec<MockFaceHandle>,
        MockError,
    >)
        ensures
            match result {
                Ok(faces) => self.face_ids().contains(face.id()) && faces@.len() == 0,
                Err(e) => !self.face_ids().contains(face.id()) && e == MockError::Face(face.id()),
            },
    {
        if self.faces.contains_key(&face.0) {
            Ok(Vec::new())
        } else {
            Err(MockError::Face(face.0))
        }
    }

    fn is_valid(&self) -> (ok: bool) {
        !self.vertices.is_empty() && !self.faces.is_empty()
    }
}

impl<S: CoordinateScalar> TriangulationMut for MockBackend<S> {
    /// Stores the coordinates under the next free identifier. Fails, and
    /// changes nothing, once the identifiers are used up.
    fn insert_vertex(&mut self, coords: &[S]) -> (result: Result<MockVertexHandle, MockError>)
        ensures
            final(self).same_edges_and_faces(old(self)),
            match result {
                Ok(handle) => {
                    &&& old(self).upcoming_vertex_id() < usize::MAX
                    &&& handle.id() == old(self).upcoming_vertex_id()
                    &&& final(self).upcoming_vertex_id() == handle.id() + 1
                    &&& final(self).vertex_ids() == old(self).vertex_ids().insert(handle.id())
                    &&& final(self).coordinates_of(handle.id()) == coords@
                    &&& final(self).same_vertices_except(old(self), handle.id())
                },
                Err(e) => {
                    &&& old(self).upcoming_vertex_id() == usize::MAX
                    &&& e is Operation
                    &&& *final(self) == *old(self)
                },
            },
    {
        if self.next_vertex_id == usize::MAX {
            return Err(MockError::Operation("vertex identifiers exhausted".to_string()));
        }
        let id = self.next_vertex_id;
        self.next_vertex_id = id + 1;
        self.vertices.insert(id, copy_of(coords));
        proof {
            assert(final(self).vertices@.dom() =~= old(self).vertices@.dom().insert(id));
            assert(final(self).vertices@.remove(id) =~= old(self).vertices@.remove(id));
        }
        Ok(MockVertexHandle(id))
    }

    /// Removes the vertex; the list of affected faces is always empty.
    fn remove_vertex(&mut self, vertex: MockVertexHandle) -> (result: Result<
        Vec<MockFaceHandle>,
        MockError,
    >)
        ensures
            final(self).same_edges_and_faces(old(self)),
            final(self).upcoming_vertex_id() == old(self).upcoming_vertex_id(),
            match result {
                Ok(affected) => {
                    &&& old(self).vertex_ids().contains(vertex.id())
                    &&& affected@.len() == 0
                    &&& final(self).vertex_ids() == old(self).vertex_ids().remove(vertex.id())
                    &&& final(self).same_vertices_except(old(self), vertex.id())
                },
                Err(e) => {
                    &&& !old(self).vertex_ids().contains(vertex.id())
                    &&& e == MockError::Vertex(vertex.id())
                    &&& final(self).vertex_ids() == old(self).vertex_ids()
                },
            },
    {
        match self.vertices.remove(&vertex.0) {
            Some(_) => {
                proof {
                    assert(final(self).vertices@.dom() =~= old(self).vertices@.dom().remove(
                        vertex.0,
                    ));
                    assert(final(self).vertices@.remove(vertex.0) =~= old(self).vertices@.remove(
                        vertex.0,
                    ));
                }
                Ok(Vec::new())
            },
            None => {
                proof {
                    assert(final(self).vertices@ =~= old(self).vertices@);
                }
                Err(MockError::Vertex(vertex.0))
            },
        }
    }

    /// Replaces the coordinates of a vertex that is held.
    fn move_vertex(&mut self, vertex: MockVertexHandle, new_coords: &[S]) -> (result: Result<
        (),
        MockError,
    >)
        ensures
            final(self).same_edges_and_faces(old(self)),
            final(self).upcoming_vertex_id() == old(self).upcoming_vertex_id(),
            final(self).vertex_ids() == old(self).vertex_ids(),
            match result {
                Ok(_) => {
                    &&& old(self).vertex_ids().contains(vertex.id())
                    &&& final(self).coordinates_of(vertex.id()) == new_coords@
                    &&& final(self).same_vertices_except(old(self), vertex.id())
                },
                Err(e) => {
                    &&& !old(self).vertex_ids().contains(vertex.id())
                    &&& e == MockError::Vertex(vertex.id())
                    &&& *final(self) == *old(self)
                },
            },
    {
        if self.vertices.contains_key(&vertex.0) {
            self.vertices.insert(vertex.0, copy_of(new_coords));
            proof {
                assert(final(self).vertices@.dom() =~= old(self).vertices@.dom());
                assert(final(self).vertices@.remove(vertex.0) =~= old(self).vertices@.remove(
                    vertex.0,
                ));
            }
            Ok(())
        } else {
            Err(MockError::Vertex(vertex.0))
        }
    }

    /// Flips nothing: hands the edge back with no affected faces.
    fn flip_edge(&mut self, edge: MockEdgeHandle) -> (result: Result<
        FlipResult<MockVertexHandle, MockEdgeHandle, MockFaceHandle>,
        MockError,
    >)
        ensures
            *final(self) == *old(self),
            result is Ok,
            result->Ok_0.edge() == edge,
            result->Ok_0.faces()@.len() == 0,
    {
        Ok(FlipResult::new(edge, Vec::new()))
    }

    /// Every edge counts as flippable.
    fn can_flip_edge(&self, _edge: &MockEdgeHandle) -> (ok: bool)
        ensures
            ok,
    {
        true
    }

    /// Inserts the point as a vertex; no face is created or removed.
    fn subdivide_face(&mut self, face: MockFaceHandle, point: &[S]) -> (result: Result<
        SubdivisionResult<MockVertexHandle, MockEdgeHandle, MockFaceHandle>,
        MockError,
    >)
        ensures
            final(self).same_edges_and_faces(old(self)),
            match result {
                Ok(outcome) => {
                    &&& old(self).upcoming_vertex_id() < usize::MAX
                    &&& outcome.vertex().id() == old(self).upcoming_vertex_id()
                    &&& outcome.created()@.len() == 0
                    &&& outcome.removed() == face
                    &&& final(self).vertex_ids() == old(self).vertex_ids().insert(
                        outcome.vertex().id(),
                    )
                    &&& final(self).coordinates_of(outcome.vertex().id()) == point@
                },
                Err(e) => {
                    &&& old(self).upcoming_vertex_id() == usize::MAX
                    &&& e is Operation
                    &&& *final(self) == *old(self)
                },
            },
    {
        match self.insert_vertex(point) {
            Ok(new_vertex) => Ok(SubdivisionResult::new(new_vertex, Vec::new(), face)),
            Err(e) => Err(e),
        }
    }

    /// Removes everything and restarts the identifiers.
    fn clear(&mut self)
        ensures
            final(self).vertex_ids() == Set::<usize>::empty(),
            final(self).edge_ids() == Set::<usize>::empty(),
            final(self).face_ids() == Set::<usize>::empty(),
            final(self).upcoming_vertex_id() == 0,
            final(self).declared_dimension() == old(self).declared_dimension(),
    {
        self.vertices.clear();
        self.edges.clear();
        self.faces.clear();
        self.next_vertex_id = 0;
        self.next_edge_id = 0;
        self.next_face_id = 0;
        proof {
            assert(final(self).vertices@.dom() =~= Set::<usize>::empty());
            assert(final(self).edges@.dom() =~= Set::<usize>::empty());
            assert(final(self).faces@.dom() =~= Set::<usize>::empty());
        }
    }

    /// Nothing to reserve in a hash-based store.
    fn reserve_capacity(&mut self, _vertices: usize, _faces: usize)
        ensures
            *final(self) == *old(self),
    {
    }
}

} // verus!
