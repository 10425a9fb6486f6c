//! The discrete Regge action of a two-dimensional triangulation.
//!
//! All real-valued quantities are of a scalar type `S` that the caller
//! picks. The library performs arithmetic on `S` through the operator traits
//! of the standard library only, and contracts state results over the
//! specifications of those operators.

use core::ops::{Add, Div, Mul, Neg, Sub};
use vstd::prelude::*;
use vstd::std_specs::cmp::PartialOrdSpec;
use vstd::std_specs::convert::FromSpec;
use vstd::std_specs::ops::{AddSpec, DivSpec, MulSpec, NegSpec, SubSpec};

verus! {

/// A scalar the simulation can compute with.
pub trait Scalar: Copy + PartialOrd + From<u32> + Add<Output = Self> + Sub<Output = Self> + Mul<
    Output = Self,
> + Div<Output = Self> + Neg<Output = Self> {

}

impl<T> Scalar for T where
    T: Copy + PartialOrd + From<u32> + Add<Output = T> + Sub<Output = T> + Mul<Output = T> + Div<
        Output = T,
    > + Neg<Output = T>,
 {

}

/// The operators of `S` are defined on all operands: none of them can fail.
/// This holds of IEEE floating point; it does not hold of machine integers.
pub open spec fn arithmetic_total<S: Scalar>() -> bool {
    &&& forall|a: S, b: S| #[trigger] a.add_req(b)
    &&& forall|a: S, b: S| #[trigger] a.sub_req(b)
    &&& forall|a: S, b: S| #[trigger] a.mul_req(b)
    &&& forall|a: S, b: S| #[trigger] a.div_req(b)
    &&& forall|a: S| #[trigger] a.neg_req()
}

/// The operators of `S` and its conversion from `u32` compute what their
/// specifications say.
pub open spec fn arithmetic_specified<S: Scalar>() -> bool {
    &&& <S as AddSpec>::obeys_add_spec()
    &&& <S as SubSpec>::obeys_sub_spec()
    &&& <S as MulSpec>::obeys_mul_spec()
    &&& <S as DivSpec>::obeys_div_spec()
    &&& <S as NegSpec>::obeys_neg_spec()
    &&& <S as FromSpec<u32>>::obeys_from_spec()
}

/// Comparisons on `S` compute what their specification says.
pub open spec fn comparison_specified<S: Scalar>() -> bool {
    S::obeys_partial_cmp_spec()
}

/// The whole number `n` as a scalar.
pub open spec fn whole<S: Scalar>(n: u32) -> S {
    <S as FromSpec<u32>>::from_spec(n)
}

/// Converts the whole number `n` into a scalar.
pub fn scalar_of<S: Scalar>(n: u32) -> (scalar: S)
    ensures
        <S as FromSpec<u32>>::obeys_from_spec() ==> scalar == whole::<S>(n),
{
    S::from(n)
}

/// The Regge action `S = -k0 * N0 - k2 * N2 + lambda * N1`, evaluated as
/// `lambda * N1 + ((-k0) * N0 + (-(k2 * N2)))`.
pub open spec fn regge_action<S: Scalar>(
    vertices: u32,
    edges: u32,
    triangles: u32,
    coupling_0: S,
    coupling_2: S,
    cosmological_constant: S,
) -> S {
    cosmological_constant.mul_spec(whole::<S>(edges)).add_spec(
        coupling_0.neg_spec().mul_spec(whole::<S>(vertices)).add_spec(
            coupling_2.mul_spec(whole::<S>(triangles)).neg_spec(),
        ),
    )
}

/// Calculates the Regge action from the simplex counts and the three
/// parameters. It has no failure mode: non-finite inputs give a non-finite
/// result.
pub fn compute_regge_action<S: Scalar>(
    vertices: u32,
    edges: u32,
    triangles: u32,
    coupling_0: S,
    coupling_2: S,
    cosmological_constant: S,
) -> (action: S)
    requires
        arithmetic_total::<S>(),
    ensures
        arithmetic_specified::<S>() ==> action == regge_action(
            vertices,
            edges,
            triangles,
            coupling_0,
            coupling_2,
            cosmological_constant,
        ),
{
    let n_0: S = S::from(vertices);
    let n_1: S = S::from(edges);
    let n_2: S = S::from(triangles);
    let curvature: S = coupling_0.neg() * n_0 + (coupling_2 * n_2).neg();
    cosmological_constant * n_1 + curvature
}

/// Parameters of the action.
#[derive(Debug, Clone, Copy)]
pub struct ActionConfig<S> {
    /// Coupling constant for vertices.
    pub coupling_0: S,
    /// Coupling constant for triangles.
    pub coupling_2: S,
    /// Cosmological constant.
    pub cosmological_constant: S,
}

impl<S: Scalar> ActionConfig<S> {
    /// The action these parameters give to the simplex counts.
    pub open spec fn action_of(&self, vertices: u32, edges: u32, triangles: u32) -> S {
        regge_action(
            vertices,
            edges,
            triangles,
            self.coupling_0,
            self.coupling_2,
            self.cosmological_constant,
        )
    }

    /// The default parameters: both couplings 1, cosmological constant 1/10.
    pub fn default() -> (config: Self)
        requires
            arithmetic_total::<S>(),
        ensures
            arithmetic_specified::<S>() ==> config == (ActionConfig {
                coupling_0: whole::<S>(1),
                coupling_2: whole::<S>(1),
                cosmological_constant: whole::<S>(1).div_spec(whole::<S>(10)),
            }),
    {
        let one: S = S::from(1u32);
        let ten: S = S::from(10u32);
        Self { coupling_0: one, coupling_2: S::from(1u32), cosmological_constant: one / ten }
    }

    /// Creates a new action configuration.
    pub fn new(coupling_0: S, coupling_2: S, cosmological_constant: S) -> (config: Self)
        ensures
            config == (ActionConfig { coupling_0, coupling_2, cosmological_constant }),
    {
        Self { coupling_0, coupling_2, cosmological_constant }
    }

    /// Calculates the action for the given simplex counts.
    pub fn calculate_action(&self, vertices: u32, edges: u32, triangles: u32) -> (action: S)
        requires
            arithmetic_total::<S>(),
        ensures
            arithmetic_specified::<S>() ==> action == self.action_of(vertices, edges, triangles),
    {
        compute_regge_action(
            vertices,
            edges,
            triangles,
            self.coupling_0,
            self.coupling_2,
            self.cosmological_constant,
        )
    }
}

/// The action computed through a configuration built from three parameters
/// is the action of the formula applied to those parameters directly.
pub proof fn lemma_action_config_round_trip<S: Scalar>(
    vertices: u32,
    edges: u32,
    triangles: u32,
    coupling_0: S,
    coupling_2: S,
    cosmological_constant: S,
)
    ensures
        (ActionConfig { coupling_0, coupling_2, cosmological_constant }).action_of(
            vertices,
            edges,
            triangles,
        ) == regge_action(
            vertices,
            edges,
            triangles,
            coupling_0,
            coupling_2,
            cosmological_constant,
        ),
{
}

} // verus!
