//! A causal triangulation over a plain list of triangles.

use crate::cdt::action::{arithmetic_total, Scalar};
use crate::triangulations::delaunay_triangulations::{
    generate_random_delaunay2, triangle_rows, triangle_strip,
};
use std::collections::HashSet;
use vstd::prelude::*;

verus! {

broadcast use vstd::std_specs::hash::group_hash_axioms;

/// A triangulation as a list of triangles, each a list of vertex indices.
#[derive(Debug, Clone)]
pub struct CausalTriangulation {
    /// The triangles, as vertex indices.
    pub triangulation: Vec<Vec<usize>>,
    /// Number of time slices in the foliation.
    pub time_slices: u32,
    /// Dimension of the triangulation.
    pub dimension: u32,
}

/// The vertex indices that occur in the triangles.
pub open spec fn vertices_used(triangles: Seq<Seq<usize>>) -> Set<usize> {
    Set::new(
        |v: usize|
            exists|t: int, k: int|
                0 <= t < triangles.len() && 0 <= k < triangles[t].len() && #[trigger] triangles[t][k]
                    == v,
    )
}

/// The corners of a triangle before position `upto`.
pub open spec fn corners_before(triangle: Seq<usize>, upto: int) -> Set<usize> {
    Set::new(|v: usize| exists|j: int| 0 <= j < upto && j < triangle.len() && #[trigger] triangle[j] == v)
}

/// One more corner adds that corner to the set.
proof fn lemma_corners_step(triangle: Seq<usize>, k: int)
    requires
        0 <= k < triangle.len(),
    ensures
        corners_before(triangle, k + 1) == corners_before(triangle, k).insert(triangle[k]),
{
    assert forall|v: usize| corners_before(triangle, k + 1).contains(v) implies corners_before(
        triangle,
        k,
    ).insert(triangle[k]).contains(v) by {
        let j = choose|j: int| 0 <= j < k + 1 && j < triangle.len() && #[trigger] triangle[j] == v;
        if j < k {
            assert(corners_before(triangle, k).contains(v));
        }
    }
    assert forall|v: usize| corners_before(triangle, k).insert(triangle[k]).contains(
        v,
    ) implies corners_before(triangle, k + 1).contains(v) by {
        if v == triangle[k] {
            assert(triangle[k] == v);
        } else {
            let j = choose|j: int| 0 <= j < k && j < triangle.len() && #[trigger] triangle[j] == v;
            assert(triangle[j] == v);
        }
    }
    assert(corners_before(triangle, k + 1) =~= corners_before(triangle, k).insert(triangle[k]));
}

/// One more triangle adds its corners to the vertices used.
proof fn lemma_vertices_step(triangles: Seq<Seq<usize>>, t: int)
    requires
        0 <= t < triangles.len(),
    ensures
        vertices_used(triangles.take(t + 1)) == vertices_used(triangles.take(t)).union(
            corners_before(triangles[t], triangles[t].len() as int),
        ),
{
    let shorter = triangles.take(t);
    let longer = triangles.take(t + 1);
    let last = corners_before(triangles[t], triangles[t].len() as int);
    assert forall|v: usize| vertices_used(longer).contains(v) implies vertices_used(
        shorter,
    ).union(last).contains(v) by {
        let (a, b) = choose|a: int, b: int|
            0 <= a < longer.len() && 0 <= b < longer[a].len() && #[trigger] longer[a][b] == v;
        if a < t {
            assert(shorter[a][b] == v);
        } else {
            assert(triangles[t][b] == v);
        }
    }
    assert forall|v: usize| vertices_used(shorter).union(last).contains(v) implies vertices_used(
        longer,
    ).contains(v) by {
        if vertices_used(shorter).contains(v) {
            let (a, b) = choose|a: int, b: int|
                0 <= a < shorter.len() && 0 <= b < shorter[a].len() && #[trigger] shorter[a][b]
                    == v;
            assert(longer[a][b] == v);
        } else {
            let j = choose|j: int|
                0 <= j < triangles[t].len() && j < triangles[t].len() && #[trigger] triangles[t][j]
                    == v;
            assert(longer[t][j] == v);
        }
    }
    assert(vertices_used(longer) =~= vertices_used(shorter).union(last));
}

/// A pair of indices in canonical order: the smaller one first.
pub open spec fn ordered_pair(a: usize, b: usize) -> (usize, usize) {
    if a < b {
        (a, b)
    } else {
        (b, a)
    }
}

/// The side `k` of a triangle: from its corner `k` to the next of its first
/// three corners.
pub open spec fn side(triangle: Seq<usize>, k: int) -> (usize, usize) {
    ordered_pair(triangle[k], triangle[(k + 1) % 3])
}

/// The canonical pairs of the sides of all triangles with at least three
/// corners.
pub open spec fn sides_used(triangles: Seq<Seq<usize>>) -> Set<(usize, usize)> {
    Set::new(
        |pair: (usize, usize)|
            exists|t: int, k: int|
                0 <= t < triangles.len() && triangles[t].len() >= 3 && 0 <= k < 3 && #[trigger] side(
                    triangles[t],
                    k,
                ) == pair,
    )
}

/// The sides of a triangle before side `upto`; none where the triangle has
/// fewer than three corners.
pub open spec fn sides_before(triangle: Seq<usize>, upto: int) -> Set<(usize, usize)> {
    Set::new(
        |pair: (usize, usize)|
            triangle.len() >= 3 && exists|k: int|
                0 <= k < upto && k < 3 && #[trigger] side(triangle, k) == pair,
    )
}

/// One more side adds that side to the set.
proof fn lemma_sides_step(triangle: Seq<usize>, k: int)
    requires
        triangle.len() >= 3,
        0 <= k < 3,
    ensures
        sides_before(triangle, k + 1) == sides_before(triangle, k).insert(side(triangle, k)),
{
    assert forall|pair: (usize, usize)| sides_before(triangle, k + 1).contains(
        pair,
    ) implies sides_before(triangle, k).insert(side(triangle, k)).contains(pair) by {
        let j = choose|j: int| 0 <= j < k + 1 && j < 3 && #[trigger] side(triangle, j) == pair;
        if j < k {
            assert(sides_before(triangle, k).contains(pair));
        }
    }
    assert forall|pair: (usize, usize)| sides_before(triangle, k).insert(
        side(triangle, k),
    ).contains(pair) implies sides_before(triangle, k + 1).contains(pair) by {
        if pair == side(triangle, k) {
            assert(side(triangle, k) == pair);
        } else {
            let j = choose|j: int| 0 <= j < k && j < 3 && #[trigger] side(triangle, j) == pair;
            assert(side(triangle, j) == pair);
        }
    }
    assert(sides_before(triangle, k + 1) =~= sides_before(triangle, k).insert(side(triangle, k)));
}

/// One more triangle adds its sides to the sides used.
proof fn lemma_sides_used_step(triangles: Seq<Seq<usize>>, t: int)
    requires
        0 <= t < triangles.len(),
    ensures
        sides_used(triangles.take(t + 1)) == sides_used(triangles.take(t)).union(
            sides_before(triangles[t], 3),
        ),
{
    let shorter = triangles.take(t);
    let longer = triangles.take(t + 1);
    let last = sides_before(triangles[t], 3);
    assert forall|pair: (usize, usize)| sides_used(longer).contains(pair) implies sides_used(
        shorter,
    ).union(last).contains(pair) by {
        let (a, k) = choose|a: int, k: int|
            0 <= a < longer.len() && longer[a].len() >= 3 && 0 <= k < 3 && #[trigger] side(
                longer[a],
                k,
            ) == pair;
        if a < t {
            assert(side(shorter[a], k) == pair);
        } else {
            assert(side(triangles[t], k) == pair);
        }
    }
    assert forall|pair: (usize, usize)| sides_used(shorter).union(last).contains(
        pair,
    ) implies sides_used(longer).contains(pair) by {
        if sides_used(shorter).contains(pair) {
            let (a, k) = choose|a: int, k: int|
                0 <= a < shorter.len() && shorter[a].len() >= 3 && 0 <= k < 3 && #[trigger] side(
                    shorter[a],
                    k,
                ) == pair;
            assert(side(longer[a], k) == pair);
        } else {
            let k = choose|k: int| 0 <= k < 3 && k < 3 && #[trigger] side(triangles[t], k) == pair;
            assert(side(longer[t], k) == pair);
        }
    }
    assert(sides_used(longer) =~= sides_used(shorter).union(last));
}

/// A canonical pair as one number: the first index above the second.
pub open spec fn packed(pair: (usize, usize)) -> u128 {
    (pair.0 as int * 0x1_0000_0000_0000_0000 + pair.1 as int) as u128
}

/// Packs a canonical pair into one number; different pairs give different
/// numbers.
fn pack(pair: (usize, usize)) -> (key: u128)
    ensures
        key == packed(pair),
        forall|other: (usize, usize)| packed(other) == key ==> other == pair,
{
    let key: u128 = pair.0 as u128 * 0x1_0000_0000_0000_0000u128 + pair.1 as u128;
    assert forall|other: (usize, usize)| packed(other) == key implies other == pair by {
        assert(other.0 as int * 0x1_0000_0000_0000_0000 + other.1 as int == pair.0 as int
            * 0x1_0000_0000_0000_0000 + pair.1 as int);
        assert(other.0 == pair.0 && other.1 == pair.1) by (nonlinear_arith)
            requires
                other.0 as int * 0x1_0000_0000_0000_0000 + other.1 as int == pair.0 as int
                    * 0x1_0000_0000_0000_0000 + pair.1 as int,
                0 <= other.1 < 0x1_0000_0000_0000_0000,
                0 <= pair.1 < 0x1_0000_0000_0000_0000,
                0 <= other.0,
                0 <= pair.0,
        ;
    }
    key
}

impl CausalTriangulation {
    /// Creates a new causal triangulation over the given number of random
    /// points.
    pub fn new<S: Scalar>(vertices: u32, time_slices: u32, dimension: u32) -> (triangulation: Self) where
        rand::distr::StandardUniform: rand::distr::Distribution<S>,

        requires
            arithmetic_total::<S>(),
        ensures
            triangle_rows(triangulation.triangulation@) == triangle_strip(vertices as nat),
            triangulation.time_slices == time_slices,
            triangulation.dimension == dimension,
    {
        let triangulation = generate_random_delaunay2::<S>(vertices);
        Self { triangulation, time_slices, dimension }
    }

    /// Returns the number of triangles in the triangulation.
    pub fn triangle_count(&self) -> (count: usize)
        ensures
            count == self.triangulation@.len(),
    {
        self.triangulation.len()
    }

    /// Returns the number of distinct vertices in the triangulation.
    pub fn vertex_count(&self) -> (count: usize)
        ensures
            vertices_used(triangle_rows(self.triangulation@)).finite(),
            count == vertices_used(triangle_rows(self.triangulation@)).len(),
    {
        let ghost all = triangle_rows(self.triangulation@);
        let mut vertices: HashSet<usize> = HashSet::new();
        let mut t: usize = 0;
        proof {
            assert(vertices@ =~= vertices_used(all.take(0)));
        }
        while t < self.triangulation.len()
            invariant
                t <= self.triangulation@.len(),
                all == triangle_rows(self.triangulation@),
                vertices@ == vertices_used(all.take(t as int)),
                vertices@.finite(),
            decreases self.triangulation@.len() - t,
        {
            let triangle = &self.triangulation[t];
            let ghost done = vertices@;
            let mut k: usize = 0;
            proof {
                assert(corners_before(triangle@, 0) =~= Set::<usize>::empty());
                assert(vertices@ =~= done.union(corners_before(triangle@, 0)));
            }
            while k < triangle.len()
                invariant
                    k <= triangle@.len(),
                    vertices@.finite(),
                    vertices@ == done.union(corners_before(triangle@, k as int)),
                decreases triangle@.len() - k,
            {
                proof {
                    lemma_corners_step(triangle@, k as int);
                }
                vertices.insert(triangle[k]);
                assert(vertices@ =~= done.union(corners_before(triangle@, k + 1)));
                k = k + 1;
            }
            proof {
                assert(all[t as int] == triangle@);
                lemma_vertices_step(all, t as int);
            }
            t = t + 1;
        }
        proof {
            assert(all.take(all.len() as int) =~= all);
        }
        vertices.len()
    }

    /// Returns the number of distinct edges in the triangulation: the
    /// sides of its triangles, where a side that two triangles share counts
    /// once.
    pub fn edge_count(&self) -> (count: usize)
        ensures
            sides_used(triangle_rows(self.triangulation@)).finite(),
            count == sides_used(triangle_rows(self.triangulation@)).len(),
    {
        let ghost all = triangle_rows(self.triangulation@);
        let mut edges: HashSet<u128> = HashSet::new();
        let ghost mut pairs: Set<(usize, usize)> = Set::empty();
        let mut t: usize = 0;
        proof {
            assert(pairs =~= sides_used(all.take(0)));
        }
        while t < self.triangulation.len()
            invariant
                t <= self.triangulation@.len(),
                all == triangle_rows(self.triangulation@),
                pairs == sides_used(all.take(t as int)),
                pairs.finite(),
                edges@.finite(),
                pairs.len() == edges@.len(),
                forall|pair: (usize, usize)| pairs.contains(pair) <==> edges@.contains(packed(pair)),
            decreases self.triangulation@.len() - t,
        {
            let triangle = &self.triangulation[t];
            let ghost done = pairs;
            proof {
                assert(all[t as int] == triangle@);
                assert(sides_before(triangle@, 0) =~= Set::<(usize, usize)>::empty());
                assert(pairs =~= done.union(sides_before(triangle@, 0)));
                if triangle@.len() < 3 {
                    assert(sides_before(triangle@, 3) =~= Set::<(usize, usize)>::empty());
                    assert(pairs =~= done.union(sides_before(triangle@, 3)));
                }
            }
            if triangle.len() >= 3 {
                let mut i: usize = 0;
                while i < 3
                    invariant
                        i <= 3,
                        triangle@.len() >= 3,
                        pairs == done.union(sides_before(triangle@, i as int)),
                        pairs.finite(),
                        edges@.finite(),
                        pairs.len() == edges@.len(),
                        forall|pair: (usize, usize)|
                            pairs.contains(pair) <==> edges@.contains(packed(pair)),
                    decreases 3 - i,
                {
                    let v1 = triangle[i];
                    let v2 = triangle[(i + 1) % 3];
                    let edge = if v1 < v2 {
                        (v1, v2)
                    } else {
                        (v2, v1)
                    };
                    let key = pack(edge);
                    let ghost held = edges@;
                    let ghost known = pairs;
                    edges.insert(key);
                    proof {
                        lemma_sides_step(triangle@, i as int);
                        assert(edge == side(triangle@, i as int));
                        pairs = pairs.insert(edge);
                        assert(pairs =~= done.union(sides_before(triangle@, i + 1)));
                        assert forall|pair: (usize, usize)|
                            pairs.contains(pair) <==> edges@.contains(packed(pair)) by {
                            if packed(pair) == key {
                                assert(pair == edge);
                            }
                            assert(known.contains(pair) <==> held.contains(packed(pair)));
                        }
                        assert(known.contains(edge) <==> held.contains(key));
                    }
                    i = i + 1;
                }
            }
            proof {
                lemma_sides_used_step(all, t as int);
            }
            t = t + 1;
        }
        proof {
            assert(all.take(all.len() as int) =~= all);
        }
        edges.len()
    }

    /// Returns a reference to the triangles.
    pub fn triangles(&self) -> (triangles: &Vec<Vec<usize>>)
        ensures
            *triangles == self.triangulation,
    {
        &self.triangulation
    }

    /// Returns a mutable reference to the triangles.
    pub fn triangles_mut(&mut self) -> (triangles: &mut Vec<Vec<usize>>)
        ensures
            *triangles == old(self).triangulation,
            final(self).triangulation == *final(triangles),
            final(self).time_slices == old(self).time_slices,
            final(self).dimension == old(self).dimension,
    {
        &mut self.triangulation
    }
}

} // verus!
