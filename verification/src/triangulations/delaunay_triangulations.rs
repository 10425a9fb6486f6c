//! A stand-in for a triangulation of random points: a strip of triangles
//! over consecutive points.

use crate::cdt::action::{arithmetic_specified, arithmetic_total, scalar_of, Scalar};
use vstd::std_specs::ops::MulSpec;
use crate::util::generate_random_float;
use vstd::prelude::*;

verus! {

/// The strip of triangles over `count` points: one triangle for each three
/// consecutive points, and none where there are fewer than three points.
pub open spec fn triangle_strip(count: nat) -> Seq<Seq<usize>> {
    if count < 3 {
        Seq::empty()
    } else {
        Seq::new(
            (count - 2) as nat,
            |i: int| seq![i as usize, (i + 1) as usize, (i + 2) as usize],
        )
    }
}

/// The rows of a list of triangles as sequences.
pub open spec fn triangle_rows(triangles: Seq<Vec<usize>>) -> Seq<Seq<usize>> {
    triangles.map_values(|triangle: Vec<usize>| triangle@)
}

/// The point whose coordinates are the two draws, each multiplied by the
/// scale.
pub open spec fn scaled_point<S: Scalar>(first: S, second: S, scale: S) -> (S, S) {
    (first.mul_spec(scale), second.mul_spec(scale))
}

/// Scales two draws into a point.
pub fn scale_point<S: Scalar>(first: S, second: S, scale: S) -> (point: (S, S))
    requires
        arithmetic_total::<S>(),
    ensures
        arithmetic_specified::<S>() ==> point == scaled_point(first, second, scale),
{
    (first * scale, second * scale)
}

/// Draws a random point of the square between 0 and `scale` on both axes:
/// two draws from the unit interval, each multiplied by the scale.
pub fn generate_random_vertex<S: Scalar>(scale: S) -> (point: (S, S)) where
    rand::distr::StandardUniform: rand::distr::Distribution<S>,

    requires
        arithmetic_total::<S>(),
    ensures
        arithmetic_specified::<S>() ==> exists|first: S, second: S|
            point == #[trigger] scaled_point(first, second, scale),
{
    let first: S = generate_random_float();
    let second: S = generate_random_float();
    let point = scale_point(first, second, scale);
    assert(arithmetic_specified::<S>() ==> point == scaled_point(first, second, scale));
    point
}

/// Generates a triangulation of the given number of random points. The
/// points are drawn, but the triangles do not depend on where they fall
/// yet: each three consecutive points make one triangle.
pub fn generate_random_delaunay2<S: Scalar>(number_of_vertices: u32) -> (triangulation: Vec<
    Vec<usize>,
>) where rand::distr::StandardUniform: rand::distr::Distribution<S>
    requires
        arithmetic_total::<S>(),
    ensures
        triangle_rows(triangulation@) == triangle_strip(number_of_vertices as nat),
{
    let mut points: Vec<(S, S)> = Vec::new();
    let scale: S = scalar_of(10);
    let mut n: u32 = 0;
    while n < number_of_vertices
        invariant
            arithmetic_total::<S>(),
            n <= number_of_vertices,
            points@.len() == n,
        decreases number_of_vertices - n,
    {
        let point = generate_random_vertex(scale);
        points.push(point);
        n = n + 1;
    }
    let mut triangulation: Vec<Vec<usize>> = Vec::new();
    if points.len() >= 3 {
        let last = points.len() - 2;
        let mut i: usize = 0;
        while i < last
            invariant
                i <= last,
                last + 2 == number_of_vertices,
                triangle_rows(triangulation@) == triangle_strip(number_of_vertices as nat).take(
                    i as int,
                ),
            decreases last - i,
        {
            let mut triangle: Vec<usize> = Vec::new();
            triangle.push(i);
            triangle.push(i + 1);
            triangle.push(i + 2);
            let ghost before = triangle_rows(triangulation@);
            triangulation.push(triangle);
            proof {
                assert(triangle@ =~= seq![i, (i + 1) as usize, (i + 2) as usize]);
                assert(triangle_rows(triangulation@) =~= before.push(triangle@));
                assert(triangle_strip(number_of_vertices as nat).take(i + 1)
                    =~= triangle_strip(number_of_vertices as nat).take(i as int).push(
                    triangle@,
                ));
            }
            i = i + 1;
        }
        assert(triangle_strip(number_of_vertices as nat).take(last as int) =~= triangle_strip(
            number_of_vertices as nat,
        ));
    } else {
        assert(triangle_rows(triangulation@) =~= triangle_strip(number_of_vertices as nat));
    }
    triangulation
}

} // verus!
