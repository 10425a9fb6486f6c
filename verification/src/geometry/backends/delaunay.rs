//! Backend over a Delaunay triangulation that a geometric engine produced.
//!
//! The backend holds the complex as plain data: the vertices with their
//! identities and coordinates, the cells with the identities of their
//! vertices and neighbours, and the engine's verdict on validity. The
//! engine exposes cells and their facets, not edges; the edges are derived
//! here, by going through all facets and keeping one of each pair of
//! endpoints.

use crate::geometry::traits::{
    CoordinateScalar, FlipResult, GeometryBackend, SubdivisionResult, TriangulationMut,
    TriangulationQuery,
};
use std::collections::{HashMap, HashSet};
use vstd::prelude::*;
use vstd::string::StringExecFns;

verus! {

broadcast use vstd::std_specs::hash::group_hash_axioms;

/// A pair of vertex identities in canonical order: the smaller one first.
pub open spec fn canonical_key(a: u128, b: u128) -> (u128, u128) {
    if a <= b {
        (a, b)
    } else {
        (b, a)
    }
}

/// A facet with exactly two vertices is an edge.
pub open spec fn is_edge(facet: Seq<u128>) -> bool {
    facet.len() == 2
}

/// The canonical key of an edge facet.
pub open spec fn edge_key(facet: Seq<u128>) -> (u128, u128) {
    canonical_key(facet[0], facet[1])
}

/// The facets of one cell: for each position, the vertices of the cell
/// without the one at that position.
pub open spec fn facets_of_cell(corners: Seq<u128>) -> Seq<Seq<u128>> {
    Seq::new(corners.len(), |i: int| corners.remove(i))
}

/// The facets of all cells, cell after cell.
pub open spec fn facets_of(cells: Seq<Seq<u128>>) -> Seq<Seq<u128>>
    decreases cells.len(),
{
    if cells.len() == 0 {
        Seq::empty()
    } else {
        facets_of(cells.drop_last()) + facets_of_cell(cells.last())
    }
}

/// The canonical keys of all edges among `facets`.
pub open spec fn edge_keys(facets: Seq<Seq<u128>>) -> Set<(u128, u128)> {
    Set::new(
        |key: (u128, u128)|
            exists|i: int|
                0 <= i < facets.len() && is_edge(#[trigger] facets[i]) && edge_key(facets[i])
                    == key,
    )
}

/// The facet at position `i` is an edge, and no edge before it has its
/// canonical key.
pub open spec fn first_occurrence(facets: Seq<Seq<u128>>, i: int) -> bool {
    &&& 0 <= i < facets.len()
    &&& is_edge(facets[i])
    &&& forall|j: int| 0 <= j < i && is_edge(#[trigger] facets[j]) ==> edge_key(facets[j]) != edge_key(facets[i])
}

/// The rows of a vector of vectors as sequences.
pub open spec fn rows(table: Seq<Vec<u128>>) -> Seq<Seq<u128>> {
    table.map_values(|row: Vec<u128>| row@)
}

/// The positions are strictly ascending.
pub open spec fn ascending(positions: Seq<usize>) -> bool {
    forall|a: int, b: int| 0 <= a < b < positions.len() ==> positions[a] < positions[b]
}

/// `positions` lists, in ascending order, exactly the positions at which an
/// edge occurs for the first time among `facets`; there are as many of them
/// as there are distinct canonical keys.
pub open spec fn lists_unique_edges(facets: Seq<Seq<u128>>, positions: Seq<usize>) -> bool {
    &&& ascending(positions)
    &&& forall|k: int|
        0 <= k < positions.len() ==> first_occurrence(facets, #[trigger] positions[k] as int)
    &&& forall|i: int| #[trigger]
        first_occurrence(facets, i) ==> exists|k: int|
            0 <= k < positions.len() && #[trigger] positions[k] == i
    &&& edge_keys(facets).finite()
    &&& positions.len() == edge_keys(facets).len()
}

/// Two lists of the unique edges of the same facets agree up to any
/// position that both have.
proof fn lemma_unique_edges_agree(
    facets: Seq<Seq<u128>>,
    first: Seq<usize>,
    second: Seq<usize>,
    k: int,
)
    requires
        lists_unique_edges(facets, first),
        lists_unique_edges(facets, second),
        0 <= k <= first.len(),
        first.len() == second.len(),
    ensures
        forall|i: int| 0 <= i < k ==> first[i] == second[i],
    decreases k,
{
    if k > 0 {
        lemma_unique_edges_agree(facets, first, second, k - 1);
        let i = k - 1;
        assert(first_occurrence(facets, first[i] as int));
        assert(first_occurrence(facets, second[i] as int));
        let in_second = choose|j: int| 0 <= j < second.len() && #[trigger] second[j] == first[i];
        let in_first = choose|j: int| 0 <= j < first.len() && #[trigger] first[j] == second[i];
        if first[i] < second[i] {
            if in_second < i {
                assert(first[in_second] == second[in_second]);
                assert(first[in_second] < first[i]);
            } else if in_second > i {
                assert(second[i] < second[in_second]);
            }
        } else if second[i] < first[i] {
            if in_first < i {
                assert(first[in_first] == second[in_first]);
                assert(second[in_first] < second[i]);
            } else if in_first > i {
                assert(first[i] < first[in_first]);
            }
        }
    }
}

/// The unique edges of given facets are one list and no other: two lists
/// that both list them are equal.
pub proof fn lemma_unique_edges_determined(
    facets: Seq<Seq<u128>>,
    first: Seq<usize>,
    second: Seq<usize>,
)
    requires
        lists_unique_edges(facets, first),
        lists_unique_edges(facets, second),
    ensures
        first == second,
{
    lemma_unique_edges_agree(facets, first, second, first.len() as int);
    assert(first =~= second);
}

/// The keys of a prefix that is one facet longer: the key of that facet is
/// added where it is an edge.
proof fn lemma_edge_keys_step(facets: Seq<Seq<u128>>, i: int)
    requires
        0 <= i < facets.len(),
    ensures
        is_edge(facets[i]) ==> edge_keys(facets.take(i + 1)) == edge_keys(facets.take(i)).insert(
            edge_key(facets[i]),
        ),
        !is_edge(facets[i]) ==> edge_keys(facets.take(i + 1)) == edge_keys(facets.take(i)),
{
    let shorter = facets.take(i);
    let longer = facets.take(i + 1);
    assert(longer[i] == facets[i]);
    assert forall|key: (u128, u128)| edge_keys(longer).contains(key) implies if is_edge(facets[i]) {
        edge_keys(shorter).insert(edge_key(facets[i])).contains(key)
    } else {
        edge_keys(shorter).contains(key)
    } by {
        let j = choose|j: int|
            0 <= j < longer.len() && is_edge(#[trigger] longer[j]) && edge_key(longer[j]) == key;
        if j < i {
            assert(shorter[j] == longer[j]);
        }
    }
    assert forall|key: (u128, u128)| edge_keys(shorter).contains(key) implies edge_keys(
        longer,
    ).contains(key) by {
        let j = choose|j: int|
            0 <= j < shorter.len() && is_edge(#[trigger] shorter[j]) && edge_key(shorter[j])
                == key;
        assert(longer[j] == shorter[j]);
    }
    if is_edge(facets[i]) {
        assert(edge_keys(longer).contains(edge_key(facets[i])));
        assert(edge_keys(longer) =~= edge_keys(shorter).insert(edge_key(facets[i])));
    } else {
        assert(edge_keys(longer) =~= edge_keys(shorter));
    }
}

/// Whether the key of the facet at `i` occurs among the edges before it.
proof fn lemma_first_occurrence_by_keys(facets: Seq<Seq<u128>>, i: int)
    requires
        0 <= i < facets.len(),
        is_edge(facets[i]),
    ensures
        first_occurrence(facets, i) <==> !edge_keys(facets.take(i)).contains(edge_key(facets[i])),
{
    let shorter = facets.take(i);
    if edge_keys(shorter).contains(edge_key(facets[i])) {
        let j = choose|j: int|
            0 <= j < shorter.len() && is_edge(#[trigger] shorter[j]) && edge_key(shorter[j])
                == edge_key(facets[i]);
        assert(shorter[j] == facets[j]);
        assert(!first_occurrence(facets, i));
    } else {
        assert forall|j: int| 0 <= j < i && is_edge(#[trigger] facets[j]) implies edge_key(
            facets[j],
        ) != edge_key(facets[i]) by {
            assert(shorter[j] == facets[j]);
            if edge_key(facets[j]) == edge_key(facets[i]) {
                assert(edge_keys(shorter).contains(edge_key(facets[i])));
            }
        }
    }
}

/// The pairs that a two-level table of identities holds.
pub open spec fn pairs_seen(table: Map<u128, HashSet<u128>>) -> Set<(u128, u128)> {
    Set::new(|key: (u128, u128)| table.contains_key(key.0) && table[key.0]@.contains(key.1))
}

/// Orders two identities: the smaller one first.
pub fn canonical_pair(a: u128, b: u128) -> (key: (u128, u128))
    ensures
        key == canonical_key(a, b),
{
    if a <= b {
        (a, b)
    } else {
        (b, a)
    }
}

/// Goes through the facets once and lists the positions at which an edge
/// occurs for the first time. Two facets are the same edge where their
/// canonical keys are equal, so an edge that two cells share is listed once.
pub fn unique_edge_positions(facets: &Vec<Vec<u128>>) -> (positions: Vec<usize>)
    ensures
        lists_unique_edges(rows(facets@), positions@),
{
    let ghost all = rows(facets@);
    let mut seen: HashMap<u128, HashSet<u128>> = HashMap::new();
    let mut positions: Vec<usize> = Vec::new();
    let ghost mut keys: Set<(u128, u128)> = Set::empty();
    let mut i: usize = 0;
    proof {
        assert(edge_keys(all.take(0)) =~= Set::<(u128, u128)>::empty());
        assert(pairs_seen(seen@) =~= Set::<(u128, u128)>::empty());
    }
    while i < facets.len()
        invariant
            i <= facets@.len(),
            all == rows(facets@),
            all.len() == facets@.len(),
            keys == edge_keys(all.take(i as int)),
            keys == pairs_seen(seen@),
            keys.finite(),
            keys.len() == positions@.len(),
            ascending(positions@),
            forall|k: int| 0 <= k < positions@.len() ==> (#[trigger] positions@[k]) < i,
            forall|k: int|
                0 <= k < positions@.len() ==> first_occurrence(all, #[trigger] positions@[k] as int),
            forall|j: int|
                0 <= j < i && #[trigger] first_occurrence(all, j) ==> exists|k: int|
                    0 <= k < positions@.len() && #[trigger] positions@[k] == j,
        decreases facets@.len() - i,
    {
        let facet = &facets[i];
        let ghost positions_before = positions@;
        proof {
            assert(all[i as int] == facet@);
            lemma_edge_keys_step(all, i as int);
        }
        if facet.len() == 2 {
            let key = canonical_pair(facet[0], facet[1]);
            proof {
                lemma_first_occurrence_by_keys(all, i as int);
                assert(key == edge_key(all[i as int]));
            }
            let known = match seen.get(&key.0) {
                Some(partners) => partners.contains(&key.1),
                None => false,
            };
            assert(known == keys.contains(key));
            if !known {
                let ghost seen_before = seen@;
                let mut partners: HashSet<u128> = match seen.remove(&key.0) {
                    Some(partners) => partners,
                    None => HashSet::new(),
                };
                let ghost partners_before = partners@;
                partners.insert(key.1);
                seen.insert(key.0, partners);
                positions.push(i);
                proof {
                    assert(seen@[key.0]@ == partners_before.insert(key.1));
                    assert forall|other: (u128, u128)| pairs_seen(seen@).contains(other)
                        == keys.insert(key).contains(other) by {
                        if other.0 == key.0 {
                            if seen_before.contains_key(key.0) {
                                assert(partners_before == seen_before[key.0]@);
                            } else {
                                assert(partners_before =~= Set::<u128>::empty());
                            }
                            assert(pairs_seen(seen_before).contains(other) == (
                            seen_before.contains_key(other.0) && seen_before[other.0]@.contains(
                                other.1,
                            )));
                        } else {
                            assert(seen@.contains_key(other.0) == seen_before.contains_key(
                                other.0,
                            ));
                            if seen_before.contains_key(other.0) {
                                assert(seen@[other.0] == seen_before[other.0]);
                            }
                            assert(pairs_seen(seen_before).contains(other) == (
                            seen_before.contains_key(other.0) && seen_before[other.0]@.contains(
                                other.1,
                            )));
                        }
                    }
                    assert(pairs_seen(seen@) =~= keys.insert(key));
                    keys = keys.insert(key);
                    assert(forall|k: int|
                        0 <= k < positions_before.len() ==> positions@[k] == positions_before[k]);
                }
            }
        }
        proof {
            assert forall|j: int| 0 <= j < i + 1 && #[trigger] first_occurrence(all, j) implies exists|
                k: int,
            | 0 <= k < positions@.len() && #[trigger] positions@[k] == j by {
                if j < i {
                    let k = choose|k: int|
                        0 <= k < positions_before.len() && #[trigger] positions_before[k] == j;
                    assert(positions@[k] == j);
                } else {
                    assert(positions@[positions@.len() - 1] == j);
                }
            }
        }
        i = i + 1;
    }
    proof {
        assert(all.take(all.len() as int) =~= all);
        assert forall|j: int| #[trigger] first_occurrence(all, j) implies exists|k: int|
            0 <= k < positions@.len() && #[trigger] positions@[k] == j by {
            assert(0 <= j < i);
        }
    }
    positions
}

/// A vertex of the complex: its identity and its coordinates.
#[derive(Debug, Clone)]
pub struct VertexRecord<S> {
    /// Identity of the vertex.
    pub id: u128,
    /// Coordinates of the vertex.
    pub coordinates: Vec<S>,
}

/// A cell of the complex: its identity, the identities of its vertices and,
/// for each of its facets, the identity of the cell beyond it, if any.
#[derive(Debug, Clone)]
pub struct CellRecord {
    /// Identity of the cell.
    pub id: u128,
    /// Identities of the vertices of the cell.
    pub vertices: Vec<u128>,
    /// Identities of the neighbouring cells.
    pub neighbors: Vec<Option<u128>>,
}

/// The vertex lists of the cells.
pub open spec fn corners(cells: Seq<CellRecord>) -> Seq<Seq<u128>> {
    cells.map_values(|cell: CellRecord| cell.vertices@)
}

/// The vertices of `corners` without the one at `skip`.
fn facet_without(corners: &Vec<u128>, skip: usize) -> (facet: Vec<u128>)
    requires
        skip < corners@.len(),
    ensures
        facet@ == corners@.remove(skip as int),
{
    let count = corners.len();
    let mut facet: Vec<u128> = Vec::new();
    let mut j: usize = 0;
    while j < skip
        invariant
            j <= skip < corners@.len(),
            facet@ == corners@.take(j as int),
        decreases skip - j,
    {
        facet.push(corners[j]);
        j = j + 1;
    }
    j = skip + 1;
    while j < count
        invariant
            skip < j <= corners@.len(),
            count == corners@.len(),
            facet@ == corners@.take(skip as int) + corners@.subrange(skip + 1, j as int),
        decreases corners@.len() - j,
    {
        facet.push(corners[j]);
        j = j + 1;
    }
    assert(facet@ =~= corners@.remove(skip as int));
    facet
}

/// Enumerates the facets of all cells, cell after cell: for each position
/// in a cell, the facet that omits the vertex at that position.
pub fn enumerate_facets(cells: &Vec<CellRecord>) -> (facets: Vec<Vec<u128>>)
    ensures
        rows(facets@) == facets_of(corners(cells@)),
{
    let ghost all = corners(cells@);
    let mut facets: Vec<Vec<u128>> = Vec::new();
    let mut c: usize = 0;
    while c < cells.len()
        invariant
            c <= cells@.len(),
            all == corners(cells@),
            rows(facets@) == facets_of(all.take(c as int)),
        decreases cells@.len() - c,
    {
        let cell = &cells[c];
        let ghost done = rows(facets@);
        let mut i: usize = 0;
        while i < cell.vertices.len()
            invariant
                i <= cell.vertices@.len(),
                rows(facets@) == done + Seq::new(i as nat, |k: int| cell.vertices@.remove(k)),
            decreases cell.vertices@.len() - i,
        {
            let facet = facet_without(&cell.vertices, i);
            let ghost before = rows(facets@);
            facets.push(facet);
            assert(rows(facets@) =~= before.push(cell.vertices@.remove(i as int)));
            assert(rows(facets@) =~= done + Seq::new(
                (i + 1) as nat,
                |k: int| cell.vertices@.remove(k),
            ));
            i = i + 1;
        }
        proof {
            assert(all[c as int] == cell.vertices@);
            assert(all.take(c + 1).drop_last() =~= all.take(c as int));
            assert(all.take(c + 1).last() == cell.vertices@);
        }
        c = c + 1;
    }
    proof {
        assert(all.take(all.len() as int) =~= all);
    }
    facets
}

/// The number of distinct edges among the facets of the cells; zero where
/// there are fewer than two vertices or no cells.
pub open spec fn edge_count_of(vertex_count: nat, cells: Seq<CellRecord>) -> nat {
    if vertex_count < 2 || cells.len() == 0 {
        0
    } else {
        edge_keys(facets_of(corners(cells))).len()
    }
}

/// Counts the edges of a complex: the distinct pairs of endpoints among
/// the two-vertex facets of its cells.
pub fn count_edges_in_tds(vertex_count: usize, cells: &Vec<CellRecord>) -> (count: usize)
    ensures
        count == edge_count_of(vertex_count as nat, cells@),
{
    if vertex_count < 2 || cells.len() == 0 {
        return 0;
    }
    let facets = enumerate_facets(cells);
    let positions = unique_edge_positions(&facets);
    positions.len()
}

/// A universally unique identifier of the `uuid` crate. Its value is not
/// modelled.
#[verifier::external_type_specification]
#[verifier::external_body]
pub struct ExUuid(uuid::Uuid);

/// The 128 bits of an identifier as one number, the first byte highest:
/// what `Uuid::as_u128` returns.
pub uninterp spec fn uuid_value(id: uuid::Uuid) -> u128;

/// Calls `Uuid::as_u128`, which packs the sixteen bytes of the identifier
/// into one number, the first byte highest. The result is the value of the
/// identifier.
#[verifier::external_body]
fn uuid_bits(id: &uuid::Uuid) -> (bits: u128)
    ensures
        bits == uuid_value(*id),
{
    id.as_u128()
}

/// Calls `Uuid::from_u128`, which makes the identifier whose sixteen bytes
/// are those of the given number, the highest first. The value of the
/// result is the number given.
#[verifier::external_body]
fn uuid_of_bits(bits: u128) -> (id: uuid::Uuid)
    ensures
        uuid_value(id) == bits,
{
    uuid::Uuid::from_u128(bits)
}

/// Opaque handle for vertices.
#[derive(Debug, Clone, PartialEq, Eq, Hash)]
pub struct DelaunayVertexHandle {
    id: u128,
}

/// Opaque handle for edges.
#[derive(Debug, Clone, PartialEq, Eq, Hash)]
pub struct DelaunayEdgeHandle {
    id: usize,
}

/// Opaque handle for faces.
#[derive(Debug, Clone, PartialEq, Eq, Hash)]
pub struct DelaunayFaceHandle {
    id: u128,
}

impl DelaunayVertexHandle {
    /// The identity this handle stands for.
    pub closed spec fn key(&self) -> u128 {
        self.id
    }

    /// The handle of the vertex with the given identifier: its identity is
    /// the value of the identifier.
    pub fn from_uuid(id: uuid::Uuid) -> (handle: Self)
        ensures
            handle.key() == uuid_value(id),
    {
        Self { id: uuid_bits(&id) }
    }

    /// The handle of the vertex with the given identity.
    pub fn from_key(key: u128) -> (handle: Self)
        ensures
            handle.key() == key,
    {
        Self { id: key }
    }

    /// The identifier of the vertex: the one whose value is the identity
    /// of this handle.
    pub fn uuid(&self) -> (id: uuid::Uuid)
        ensures
            uuid_value(id) == self.key(),
    {
        uuid_of_bits(self.id)
    }
}

impl DelaunayEdgeHandle {
    /// The position, among all facets, at which this edge first occurs.
    pub closed spec fn position(&self) -> usize {
        self.id
    }

    /// The handle of the edge that first occurs at the given position.
    pub fn from_position(position: usize) -> (handle: Self)
        ensures
            handle.position() == position,
    {
        Self { id: position }
    }
}

impl DelaunayFaceHandle {
    /// The identity this handle stands for.
    pub closed spec fn key(&self) -> u128 {
        self.id
    }

    /// The handle of the face with the given identifier: its identity is
    /// the value of the identifier.
    pub fn from_uuid(id: uuid::Uuid) -> (handle: Self)
        ensures
            handle.key() == uuid_value(id),
    {
        Self { id: uuid_bits(&id) }
    }

    /// The handle of the face with the given identity.
    pub fn from_key(key: u128) -> (handle: Self)
        ensures
            handle.key() == key,
    {
        Self { id: key }
    }

    /// The identifier of the face: the one whose value is the identity of
    /// this handle.
    pub fn uuid(&self) -> (id: uuid::Uuid)
        ensures
            uuid_value(id) == self.key(),
    {
        uuid_of_bits(self.id)
    }
}

/// Error type of the backend.
#[derive(Debug)]
pub enum DelaunayError {
    /// Operation failed with an error message.
    OperationFailed(String),
    /// Invalid handle provided.
    InvalidHandle(String),
    /// Geometry-related error.
    GeometryError(String),
}

impl DelaunayError {
    /// The human-readable message of this error.
    pub open spec fn display_text(&self) -> Seq<char> {
        match self {
            DelaunayError::OperationFailed(msg) => "Delaunay operation failed: "@ + msg@,
            DelaunayError::InvalidHandle(msg) => "Invalid handle: "@ + msg@,
            DelaunayError::GeometryError(msg) => "Geometry error: "@ + msg@,
        }
    }

    /// Renders the message of this error.
    pub fn to_string(&self) -> (text: String)
        ensures
            text@ == self.display_text(),
    {
        match self {
            DelaunayError::OperationFailed(msg) => {
                let mut text = String::from_str("Delaunay operation failed: ");
                text.append(msg.as_str());
                text
            },
            DelaunayError::InvalidHandle(msg) => {
                let mut text = String::from_str("Invalid handle: ");
                text.append(msg.as_str());
                text
            },
            DelaunayError::GeometryError(msg) => {
                let mut text = String::from_str("Geometry error: ");
                text.append(msg.as_str());
                text
            },
        }
    }
}

/// The first position from `from` on at which `ids` holds `id`.
pub open spec fn first_position(ids: Seq<u128>, id: u128, from: int) -> Option<int>
    decreases ids.len() - from,
{
    if from < 0 || from >= ids.len() {
        None
    } else if ids[from] == id {
        Some(from)
    } else {
        first_position(ids, id, from + 1)
    }
}

/// The identities of the vertices.
pub open spec fn vertex_ids<S>(vertices: Seq<VertexRecord<S>>) -> Seq<u128> {
    vertices.map_values(|vertex: VertexRecord<S>| vertex.id)
}

/// The identities of the cells.
pub open spec fn cell_ids(cells: Seq<CellRecord>) -> Seq<u128> {
    cells.map_values(|cell: CellRecord| cell.id)
}

/// Finds the first vertex with the given identity.
fn find_vertex<S>(vertices: &Vec<VertexRecord<S>>, id: u128) -> (found: Option<usize>)
    ensures
        match found {
            Some(position) => first_position(vertex_ids(vertices@), id, 0) == Some(position as int)
                && position < vertices@.len(),
            None => first_position(vertex_ids(vertices@), id, 0) is None,
        },
{
    let ghost ids = vertex_ids(vertices@);
    let mut i: usize = 0;
    while i < vertices.len()
        invariant
            i <= vertices@.len(),
            ids == vertex_ids(vertices@),
            first_position(ids, id, 0) == first_position(ids, id, i as int),
        decreases vertices@.len() - i,
    {
        if vertices[i].id == id {
            return Some(i);
        }
        i = i + 1;
    }
    None
}

/// Finds the first cell with the given identity.
fn find_cell(cells: &Vec<CellRecord>, id: u128) -> (found: Option<usize>)
    ensures
        match found {
            Some(position) => first_position(cell_ids(cells@), id, 0) == Some(position as int)
                && position < cells@.len(),
            None => first_position(cell_ids(cells@), id, 0) is None,
        },
{
    let ghost ids = cell_ids(cells@);
    let mut i: usize = 0;
    while i < cells.len()
        invariant
            i <= cells@.len(),
            ids == cell_ids(cells@),
            first_position(ids, id, 0) == first_position(ids, id, i as int),
        decreases cells@.len() - i,
    {
        if cells[i].id == id {
            return Some(i);
        }
        i = i + 1;
    }
    None
}

/// The edges of a complex, derived once from its facets: the handles in
/// ascending order of position, and the endpoints by position.
#[derive(Debug)]
struct DelaunayEdgeCache {
    edges: Vec<DelaunayEdgeHandle>,
    endpoints_by_id: HashMap<usize, (u128, u128)>,
}

/// The positions that edge handles stand for.
pub open spec fn positions_of(handles: Seq<DelaunayEdgeHandle>) -> Seq<usize> {
    handles.map_values(|handle: DelaunayEdgeHandle| handle.position())
}

/// The identities that vertex handles stand for.
pub open spec fn vertex_keys(handles: Seq<DelaunayVertexHandle>) -> Seq<u128> {
    handles.map_values(|handle: DelaunayVertexHandle| handle.key())
}

/// The identities that face handles stand for.
pub open spec fn face_keys(handles: Seq<DelaunayFaceHandle>) -> Seq<u128> {
    handles.map_values(|handle: DelaunayFaceHandle| handle.key())
}

impl DelaunayEdgeCache {
    /// The cache holds the unique edges of `facets` and their endpoints.
    spec fn describes(&self, facets: Seq<Seq<u128>>) -> bool {
        &&& lists_unique_edges(facets, positions_of(self.edges@))
        &&& forall|p: usize|
            self.endpoints_by_id@.contains_key(p) <==> first_occurrence(facets, p as int)
        &&& forall|p: usize| #[trigger]
            self.endpoints_by_id@.contains_key(p) ==> self.endpoints_by_id@[p] == (
                facets[p as int][0],
                facets[p as int][1],
            )
    }

    /// Builds the cache from the facets of a complex.
    fn build(facets: &Vec<Vec<u128>>) -> (cache: Self)
        ensures
            cache.describes(rows(facets@)),
    {
        let ghost all = rows(facets@);
        let positions = unique_edge_positions(facets);
        let mut edges: Vec<DelaunayEdgeHandle> = Vec::new();
        let mut endpoints_by_id: HashMap<usize, (u128, u128)> = HashMap::new();
        let mut k: usize = 0;
        while k < positions.len()
            invariant
                k <= positions@.len(),
                all == rows(facets@),
                lists_unique_edges(all, positions@),
                positions_of(edges@) == positions@.take(k as int),
                forall|p: usize|
                    endpoints_by_id@.contains_key(p) <==> exists|j: int|
                        0 <= j < k && #[trigger] positions@[j] == p,
                forall|p: usize| #[trigger]
                    endpoints_by_id@.contains_key(p) ==> endpoints_by_id@[p] == (
                        all[p as int][0],
                        all[p as int][1],
                    ),
            decreases positions@.len() - k,
        {
            let position = positions[k];
            proof {
                assert(first_occurrence(all, positions@[k as int] as int));
                assert(all[position as int] == facets@[position as int]@);
            }
            let facet = &facets[position];
            let ghost before = positions_of(edges@);
            edges.push(DelaunayEdgeHandle { id: position });
            endpoints_by_id.insert(position, (facet[0], facet[1]));
            proof {
                assert(positions_of(edges@) =~= before.push(position));
                assert(positions@.take(k + 1) =~= positions@.take(k as int).push(position));
            }
            k = k + 1;
        }
        proof {
            assert(positions@.take(positions@.len() as int) =~= positions@);
            assert forall|p: usize| endpoints_by_id@.contains_key(p) <==> first_occurrence(
                all,
                p as int,
            ) by {
                if first_occurrence(all, p as int) {
                    let j = choose|j: int| 0 <= j < positions@.len() && #[trigger] positions@[j] == p;
                    assert(endpoints_by_id@.contains_key(p));
                }
            }
        }
        Self { edges, endpoints_by_id }
    }
}

/// The backend: the complex as plain data, with its derived edges.
#[derive(Debug)]
pub struct DelaunayBackend<S: CoordinateScalar, const D: usize> {
    vertices: Vec<VertexRecord<S>>,
    cells: Vec<CellRecord>,
    valid: bool,
    facets: Vec<Vec<u128>>,
    edge_cache: DelaunayEdgeCache,
}

/// The backend of a two-dimensional complex.
pub type DelaunayBackend2D<S> = DelaunayBackend<S, 2>;

impl<S: CoordinateScalar, const D: usize> DelaunayBackend<S, D> {
    /// The facets are those of the cells, and the derived edges are those
    /// of the facets.
    #[verifier::type_invariant]
    spec fn consistent(&self) -> bool {
        &&& rows(self.facets@) == facets_of(corners(self.cells@))
        &&& self.edge_cache.describes(rows(self.facets@))
    }

    /// The vertices of the complex.
    pub closed spec fn vertex_records(&self) -> Seq<VertexRecord<S>> {
        self.vertices@
    }

    /// The cells of the complex.
    pub closed spec fn cell_records(&self) -> Seq<CellRecord> {
        self.cells@
    }

    /// The engine's verdict on the validity of the complex.
    pub closed spec fn engine_verdict(&self) -> bool {
        self.valid
    }

    /// The facets of the complex, in the order of enumeration.
    pub open spec fn all_facets(&self) -> Seq<Seq<u128>> {
        facets_of(corners(self.cell_records()))
    }

    /// Create a backend from the vertices and cells of a complex and the
    /// engine's verdict on it. The edges are derived here.
    pub fn from_parts(vertices: Vec<VertexRecord<S>>, cells: Vec<CellRecord>, valid: bool) -> (backend:
        Self)
        ensures
            backend.vertex_records() == vertices@,
            backend.cell_records() == cells@,
            backend.engine_verdict() == valid,
    {
        let facets = enumerate_facets(&cells);
        let edge_cache = DelaunayEdgeCache::build(&facets);
        Self { vertices, cells, valid, facets, edge_cache }
    }

    /// Check the Delaunay property: the verdict the engine gave.
    pub fn is_delaunay(&self) -> (ok: bool)
        ensures
            ok == self.engine_verdict(),
    {
        self.valid
    }
}

impl<S: CoordinateScalar, const D: usize> GeometryBackend for DelaunayBackend<S, D> {
    type Coordinate = S;

    type VertexHandle = DelaunayVertexHandle;

    type EdgeHandle = DelaunayEdgeHandle;

    type FaceHandle = DelaunayFaceHandle;

    type Error = DelaunayError;

    /// The name of this backend: `delaunay`.
    fn backend_name(&self) -> (name: &'static str)
        ensures
            name@ == "delaunay"@,
    {
        "delaunay"
    }
}

/// The error is an invalid handle with the given message.
pub open spec fn invalid_handle(error: DelaunayError, message: Seq<char>) -> bool {
    error matches DelaunayError::InvalidHandle(msg) && msg@ == message
}

/// The error is a failed operation with the message "Not implemented".
pub open spec fn not_implemented(error: DelaunayError) -> bool {
    error matches DelaunayError::OperationFailed(msg) && msg@ == "Not implemented"@
}

/// The facet touches the vertex: it is an edge with the vertex as one of
/// its endpoints.
pub open spec fn touches(facet: Seq<u128>, vertex: u128) -> bool {
    is_edge(facet) && (facet[0] == vertex || facet[1] == vertex)
}

/// The neighbour is named and is a cell of the complex.
pub open spec fn neighbor_known(cells: Seq<CellRecord>, neighbor: Option<u128>) -> bool {
    neighbor is Some && first_position(cell_ids(cells), neighbor->Some_0, 0) is Some
}

/// Every identity among `ids` is the identity of a vertex.
pub open spec fn all_known<S>(vertices: Seq<VertexRecord<S>>, ids: Seq<u128>) -> bool {
    forall|k: int|
        0 <= k < ids.len() ==> first_position(vertex_ids(vertices), #[trigger] ids[k], 0) is Some
}

/// Makes the error of an unknown handle.
fn unknown(what: &str) -> (error: DelaunayError)
    ensures
        invalid_handle(error, what@),
{
    DelaunayError::InvalidHandle(String::from_str(what))
}

/// Makes the error of an operation that is not implemented.
fn unimplemented_operation() -> (error: DelaunayError)
    ensures
        not_implemented(error),
{
    DelaunayError::OperationFailed(String::from_str("Not implemented"))
}

impl<S: CoordinateScalar, const D: usize> TriangulationQuery for DelaunayBackend<S, D> {
    open spec fn spec_vertex_count(&self) -> nat {
        self.vertex_records().len()
    }

    open spec fn spec_edge_count(&self) -> nat {
        edge_count_of(self.vertex_records().len(), self.cell_records())
    }

    open spec fn spec_face_count(&self) -> nat {
        self.cell_records().len()
    }

    open spec fn spec_dimension(&self) -> nat {
        D as nat
    }

    open spec fn spec_is_valid(&self) -> bool {
        self.engine_verdict()
    }

    fn vertex_count(&self) -> (n: usize) {
        self.vertices.len()
    }

    /// Counts the edges anew on every call: one pass over all facets.
    fn edge_count(&self) -> (n: usize) {
        count_edges_in_tds(self.vertices.len(), &self.cells)
    }

    fn face_count(&self) -> (n: usize) {
        self.cells.len()
    }

    fn dimension(&self) -> (n: usize) {
        D
    }

    fn vertices(&self) -> (handles: Vec<DelaunayVertexHandle>)
        ensures
            vertex_keys(handles@) == vertex_ids(self.vertex_records()),
    {
        let mut handles: Vec<DelaunayVertexHandle> = Vec::new();
        let mut i: usize = 0;
        while i < self.vertices.len()
            invariant
                i <= self.vertices@.len(),
                vertex_keys(handles@) == vertex_ids(self.vertices@).take(i as int),
            decreases self.vertices@.len() - i,
        {
            let ghost before = vertex_keys(handles@);
            handles.push(DelaunayVertexHandle { id: self.vertices[i].id });
            assert(vertex_keys(handles@) =~= before.push(self.vertices@[i as int].id));
            assert(vertex_ids(self.vertices@).take(i + 1) =~= vertex_ids(self.vertices@).take(
                i as int,
            ).push(self.vertices@[i as int].id));
            i = i + 1;
        }
        assert(vertex_ids(self.vertices@).take(self.vertices@.len() as int) =~= vertex_ids(
            self.vertices@,
        ));
        handles
    }

    /// The unique edges, in ascending order of the position at which each
    /// first occurs among the facets; none where the complex has fewer than
    /// two vertices or no cell.
    fn edges(&self) -> (handles: Vec<DelaunayEdgeHandle>)
        ensures
            self.vertex_records().len() >= 2 && self.cell_records().len() > 0
                ==> lists_unique_edges(self.all_facets(), positions_of(handles@)),
            self.vertex_records().len() < 2 || self.cell_records().len() == 0 ==> handles@.len()
                == 0,
    {
        proof {
            use_type_invariant(self);
        }
        let mut handles: Vec<DelaunayEdgeHandle> = Vec::new();
        if self.vertices.len() < 2 || self.cells.len() == 0 {
            return handles;
        }
        let mut i: usize = 0;
        while i < self.edge_cache.edges.len()
            invariant
                i <= self.edge_cache.edges@.len(),
                positions_of(handles@) == positions_of(self.edge_cache.edges@).take(i as int),
            decreases self.edge_cache.edges@.len() - i,
        {
            let ghost before = positions_of(handles@);
            handles.push(DelaunayEdgeHandle { id: self.edge_cache.edges[i].id });
            assert(positions_of(handles@) =~= before.push(self.edge_cache.edges@[i as int].id));
            assert(positions_of(self.edge_cache.edges@).take(i + 1) =~= positions_of(
                self.edge_cache.edges@,
            ).take(i as int).push(self.edge_cache.edges@[i as int].id));
            i = i + 1;
        }
        assert(positions_of(self.edge_cache.edges@).take(self.edge_cache.edges@.len() as int)
            =~= positions_of(self.edge_cache.edges@));
        handles
    }

    fn faces(&self) -> (handles: Vec<DelaunayFaceHandle>)
        ensures
            face_keys(handles@) == cell_ids(self.cell_records()),
    {
        let mut handles: Vec<DelaunayFaceHandle> = Vec::new();
        let mut i: usize = 0;
        while i < self.cells.len()
            invariant
                i <= self.cells@.len(),
                face_keys(handles@) == cell_ids(self.cells@).take(i as int),
            decreases self.cells@.len() - i,
        {
            let ghost before = face_keys(handles@);
            handles.push(DelaunayFaceHandle { id: self.cells[i].id });
            assert(face_keys(handles@) =~= before.push(self.cells@[i as int].id));
            assert(cell_ids(self.cells@).take(i + 1) =~= cell_ids(self.cells@).take(
                i as int,
            ).push(self.cells@[i as int].id));
            i = i + 1;
        }
        assert(cell_ids(self.cells@).take(self.cells@.len() as int) =~= cell_ids(self.cells@));
        handles
    }

    /// The coordinates of the first vertex with the identity of the handle.
    fn vertex_coordinates(&self, vertex: &DelaunayVertexHandle) -> (result: Result<
        Vec<S>,
        DelaunayError,
    >)
        ensures
            match result {
                Ok(coords) => first_position(
                    vertex_ids(self.vertex_records()),
                    vertex.key(),
                    0,
                ) matches Some(position) && coords@ == self.vertex_records()[position].coordinates@,
                Err(e) => first_position(vertex_ids(self.vertex_records()), vertex.key(), 0)
                    is None && invalid_handle(e, "Vertex not found"@),
            },
    {
        match find_vertex(&self.vertices, vertex.id) {
            Some(position) => {
                let stored = &self.vertices[position].coordinates;
                let mut coords: Vec<S> = Vec::new();
                let mut i: usize = 0;
                while i < stored.len()
                    invariant
                        i <= stored@.len(),
                        coords@ == stored@.take(i as int),
                    decreases stored@.len() - i,
                {
                    coords.push(stored[i]);
                    i = i + 1;
                }
                assert(stored@.take(stored@.len() as int) =~= stored@);
                Ok(coords)
            },
            None => Err(unknown("Vertex not found")),
        }
    }

    /// The vertices of the first cell with the identity of the handle. It
    /// fails where there is no such cell, and where the cell names a vertex
    /// that the complex does not hold.
    fn face_vertices(&self, face: &DelaunayFaceHandle) -> (result: Result<
        Vec<DelaunayVertexHandle>,
        DelaunayError,
    >)
        ensures
            match result {
                Ok(handles) => first_position(
                    cell_ids(self.cell_records()),
                    face.key(),
                    0,
                ) matches Some(position) && vertex_keys(handles@)
                    == self.cell_records()[position].vertices@ && all_known(
                    self.vertex_records(),
                    self.cell_records()[position].vertices@,
                ),
                Err(e) => match first_position(cell_ids(self.cell_records()), face.key(), 0) {
                    Some(position) => !all_known(
                        self.vertex_records(),
                        self.cell_records()[position].vertices@,
                    ) && invalid_handle(e, "Vertex not found"@),
                    None => invalid_handle(e, "Face not found"@),
                },
            },
    {
        match find_cell(&self.cells, face.id) {
            Some(position) => {
                let cell = &self.cells[position];
                let mut handles: Vec<DelaunayVertexHandle> = Vec::new();
                let mut i: usize = 0;
                while i < cell.vertices.len()
                    invariant
                        i <= cell.vertices@.len(),
                        position < self.cells@.len(),
                        *cell == self.cells@[position as int],
                        first_position(cell_ids(self.cells@), face.id, 0) == Some(position as int),
                        vertex_keys(handles@) == cell.vertices@.take(i as int),
                        all_known(self.vertices@, cell.vertices@.take(i as int)),
                    decreases cell.vertices@.len() - i,
                {
                    let id = cell.vertices[i];
                    match find_vertex(&self.vertices, id) {
                        Some(_) => {},
                        None => {
                            proof {
                                assert(self.cells@[position as int].vertices@[i as int] == id);
                                assert(!all_known(
                                    self.vertices@,
                                    self.cells@[position as int].vertices@,
                                ));
                            }
                            return Err(unknown("Vertex not found"));
                        },
                    }
                    let ghost before = vertex_keys(handles@);
                    handles.push(DelaunayVertexHandle { id });
                    proof {
                        assert(vertex_keys(handles@) =~= before.push(id));
                        assert(cell.vertices@.take(i + 1) =~= cell.vertices@.take(i as int).push(
                            id,
                        ));
                    }
                    i = i + 1;
                }
                assert(cell.vertices@.take(cell.vertices@.len() as int) =~= cell.vertices@);
                Ok(handles)
            },
            None => Err(unknown("Face not found")),
        }
    }

    /// The endpoints of an edge, in the order in which its first facet
    /// names them.
    fn edge_endpoints(&self, edge: &DelaunayEdgeHandle) -> (result: Result<
        (DelaunayVertexHandle, DelaunayVertexHandle),
        DelaunayError,
    >)
        ensures
            match result {
                Ok(ends) => first_occurrence(self.all_facets(), edge.position() as int)
                    && ends.0.key() == self.all_facets()[edge.position() as int][0]
                    && ends.1.key() == self.all_facets()[edge.position() as int][1],
                Err(e) => !first_occurrence(self.all_facets(), edge.position() as int)
                    && invalid_handle(e, "Edge not found"@),
            },
    {
        proof {
            use_type_invariant(self);
        }
        match self.edge_cache.endpoints_by_id.get(&edge.id) {
            Some(ends) => Ok(
                (DelaunayVertexHandle { id: ends.0 }, DelaunayVertexHandle { id: ends.1 }),
            ),
            None => Err(unknown("Edge not found")),
        }
    }

    /// The cells that hold the vertex, in the order of the cells.
    fn adjacent_faces(&self, vertex: &DelaunayVertexHandle) -> (result: Result<
        Vec<DelaunayFaceHandle>,
        DelaunayError,
    >)
        ensures
            match result {
                Ok(handles) => first_position(
                    vertex_ids(self.vertex_records()),
                    vertex.key(),
                    0,
                ) is Some && face_keys(handles@) == cell_ids(
                    self.cell_records().filter(
                        |cell: CellRecord| cell.vertices@.contains(vertex.key()),
                    ),
                ),
                Err(e) => first_position(vertex_ids(self.vertex_records()), vertex.key(), 0)
                    is None && invalid_handle(e, "Vertex not found"@),
            },
    {
        match find_vertex(&self.vertices, vertex.id) {
            Some(_) => {},
            None => {
                return Err(unknown("Vertex not found"));
            },
        }
        let ghost holds = |cell: CellRecord| cell.vertices@.contains(vertex.key());
        let mut handles: Vec<DelaunayFaceHandle> = Vec::new();
        let mut i: usize = 0;
        while i < self.cells.len()
            invariant
                i <= self.cells@.len(),
                holds == |cell: CellRecord| cell.vertices@.contains(vertex.key()),
                face_keys(handles@) == cell_ids(self.cells@.take(i as int).filter(holds)),
            decreases self.cells@.len() - i,
        {
            proof {
                reveal(Seq::filter);
                assert(self.cells@.take(i + 1).drop_last() =~= self.cells@.take(i as int));
            }
            let ghost before = face_keys(handles@);
            if holds_vertex(&self.cells[i].vertices, vertex.id) {
                handles.push(DelaunayFaceHandle { id: self.cells[i].id });
                assert(face_keys(handles@) =~= before.push(self.cells@[i as int].id));
                assert(cell_ids(self.cells@.take(i + 1).filter(holds)) =~= cell_ids(
                    self.cells@.take(i as int).filter(holds),
                ).push(self.cells@[i as int].id));
            }
            i = i + 1;
        }
        assert(self.cells@.take(self.cells@.len() as int) =~= self.cells@);
        Ok(handles)
    }

    /// The unique edges that touch the vertex, in ascending order of
    /// position. An unknown vertex is an error.
    fn incident_edges(&self, vertex: &DelaunayVertexHandle) -> (result: Result<
        Vec<DelaunayEdgeHandle>,
        DelaunayError,
    >)
        ensures
            match result {
                Ok(handles) => first_position(
                    vertex_ids(self.vertex_records()),
                    vertex.key(),
                    0,
                ) is Some && exists|unique: Seq<usize>| #[trigger]
                    lists_unique_edges(self.all_facets(), unique) && positions_of(handles@)
                        == unique.filter(
                        |p: usize| touches(self.all_facets()[p as int], vertex.key()),
                    ),
                Err(e) => first_position(vertex_ids(self.vertex_records()), vertex.key(), 0)
                    is None && invalid_handle(e, "Vertex not found"@),
            },
    {
        proof {
            use_type_invariant(self);
        }
        match find_vertex(&self.vertices, vertex.id) {
            Some(_) => {},
            None => {
                return Err(unknown("Vertex not found"));
            },
        }
        let ghost all = rows(self.facets@);
        let ghost cached = positions_of(self.edge_cache.edges@);
        let ghost touching = |p: usize| touches(all[p as int], vertex.key());
        let mut handles: Vec<DelaunayEdgeHandle> = Vec::new();
        let mut i: usize = 0;
        while i < self.edge_cache.edges.len()
            invariant
                i <= self.edge_cache.edges@.len(),
                all == rows(self.facets@),
                cached == positions_of(self.edge_cache.edges@),
                lists_unique_edges(all, cached),
                touching == |p: usize| touches(all[p as int], vertex.key()),
                positions_of(handles@) == cached.take(i as int).filter(touching),
            decreases self.edge_cache.edges@.len() - i,
        {
            let position = self.edge_cache.edges[i].id;
            proof {
                reveal(Seq::filter);
                assert(cached.take(i + 1).drop_last() =~= cached.take(i as int));
                assert(cached[i as int] == position);
                assert(first_occurrence(all, cached[i as int] as int));
                assert(all[position as int] == self.facets@[position as int]@);
            }
            let facet = &self.facets[position];
            let ghost before = positions_of(handles@);
            if facet[0] == vertex.id || facet[1] == vertex.id {
                handles.push(DelaunayEdgeHandle { id: position });
                assert(positions_of(handles@) =~= before.push(position));
            }
            i = i + 1;
        }
        proof {
            assert(cached.take(cached.len() as int) =~= cached);
            assert(lists_unique_edges(self.all_facets(), cached));
        }
        Ok(handles)
    }

    /// The neighbours of the first cell with the identity of the handle:
    /// those that the cell names and the complex holds, in the order in
    /// which the cell names them.
    fn face_neighbors(&self, face: &DelaunayFaceHandle) -> (result: Result<
        Vec<DelaunayFaceHandle>,
        DelaunayError,
    >)
        ensures
            match result {
                Ok(handles) => first_position(
                    cell_ids(self.cell_records()),
                    face.key(),
                    0,
                ) matches Some(position) && face_keys(handles@)
                    == self.cell_records()[position].neighbors@.filter(
                    |neighbor: Option<u128>| neighbor_known(self.cell_records(), neighbor),
                ).map_values(|neighbor: Option<u128>| neighbor->Some_0),
                Err(e) => first_position(cell_ids(self.cell_records()), face.key(), 0) is None
                    && invalid_handle(e, "Face not found"@),
            },
    {
        let position = match find_cell(&self.cells, face.id) {
            Some(position) => position,
            None => {
                return Err(unknown("Face not found"));
            },
        };
        let cell = &self.cells[position];
        let ghost known = |neighbor: Option<u128>| neighbor_known(self.cells@, neighbor);
        let ghost named = |neighbor: Option<u128>| neighbor->Some_0;
        let mut handles: Vec<DelaunayFaceHandle> = Vec::new();
        let mut i: usize = 0;
        while i < cell.neighbors.len()
            invariant
                i <= cell.neighbors@.len(),
                known == |neighbor: Option<u128>| neighbor_known(self.cells@, neighbor),
                named == |neighbor: Option<u128>| neighbor->Some_0,
                face_keys(handles@) == cell.neighbors@.take(i as int).filter(known).map_values(
                    named,
                ),
            decreases cell.neighbors@.len() - i,
        {
            proof {
                reveal(Seq::filter);
                assert(cell.neighbors@.take(i + 1).drop_last() =~= cell.neighbors@.take(i as int));
            }
            let ghost before = face_keys(handles@);
            match cell.neighbors[i] {
                Some(neighbor) => {
                    match find_cell(&self.cells, neighbor) {
                        Some(_) => {
                            handles.push(DelaunayFaceHandle { id: neighbor });
                            assert(face_keys(handles@) =~= before.push(neighbor));
                            assert(cell.neighbors@.take(i + 1).filter(known).map_values(named)
                                =~= cell.neighbors@.take(i as int).filter(known).map_values(
                                named,
                            ).push(neighbor));
                        },
                        None => {},
                    }
                },
                None => {},
            }
            i = i + 1;
        }
        assert(cell.neighbors@.take(cell.neighbors@.len() as int) =~= cell.neighbors@);
        Ok(handles)
    }

    fn is_valid(&self) -> (ok: bool) {
        self.valid
    }
}

/// Whether `ids` holds `id`.
fn holds_vertex(ids: &Vec<u128>, id: u128) -> (found: bool)
    ensures
        found == ids@.contains(id),
{
    let mut i: usize = 0;
    while i < ids.len()
        invariant
            i <= ids@.len(),
            forall|k: int| 0 <= k < i ==> ids@[k] != id,
        decreases ids@.len() - i,
    {
        if ids[i] == id {
            return true;
        }
        i = i + 1;
    }
    false
}

/// The complex cannot be changed through this backend yet: every mutating
/// operation fails and leaves the complex as it is. Once one of them changes
/// the adjacency, it has to derive the edges anew.
impl<S: CoordinateScalar, const D: usize> TriangulationMut for DelaunayBackend<S, D> {
    fn insert_vertex(&mut self, _coords: &[S]) -> (result: Result<
        DelaunayVertexHandle,
        DelaunayError,
    >)
        ensures
            *final(self) == *old(self),
            result is Err,
            not_implemented(result->Err_0),
    {
        Err(unimplemented_operation())
    }

    fn remove_vertex(&mut self, _vertex: DelaunayVertexHandle) -> (result: Result<
        Vec<DelaunayFaceHandle>,
        DelaunayError,
    >)
        ensures
            *final(self) == *old(self),
            result is Err,
            not_implemented(result->Err_0),
    {
        Err(unimplemented_operation())
    }

    fn move_vertex(&mut self, _vertex: DelaunayVertexHandle, _new_coords: &[S]) -> (result: Result<
        (),
        DelaunayError,
    >)
        ensures
            *final(self) == *old(self),
            result is Err,
            not_implemented(result->Err_0),
    {
        Err(unimplemented_operation())
    }

    fn flip_edge(&mut self, _edge: DelaunayEdgeHandle) -> (result: Result<
        FlipResult<DelaunayVertexHandle, DelaunayEdgeHandle, DelaunayFaceHandle>,
        DelaunayError,
    >)
        ensures
            *final(self) == *old(self),
            result is Err,
            not_implemented(result->Err_0),
    {
        Err(unimplemented_operation())
    }

    /// No edge counts as flippable yet.
    fn can_flip_edge(&self, _edge: &DelaunayEdgeHandle) -> (ok: bool)
        ensures
            !ok,
    {
        false
    }

    fn subdivide_face(&mut self, _face: DelaunayFaceHandle, _point: &[S]) -> (result: Result<
        SubdivisionResult<DelaunayVertexHandle, DelaunayEdgeHandle, DelaunayFaceHandle>,
        DelaunayError,
    >)
        ensures
            *final(self) == *old(self),
            result is Err,
            not_implemented(result->Err_0),
    {
        Err(unimplemented_operation())
    }

    /// Clears nothing yet.
    fn clear(&mut self)
        ensures
            *final(self) == *old(self),
    {
    }

    /// Reserves nothing yet.
    fn reserve_capacity(&mut self, _vertices: usize, _faces: usize)
        ensures
            *final(self) == *old(self),
    {
    }
}

} // verus!
