//! The Metropolis-Hastings driver: proposes moves, decides on them by the
//! Metropolis rule and takes measurements at a fixed cadence.

use crate::cdt::action::{
    arithmetic_specified, arithmetic_total, comparison_specified, scalar_of, whole, ActionConfig,
    Scalar,
};
use crate::cdt::ergodic_moves::{
    attempt_recorded, lemma_attempt_counts, lemma_recordings_only_add,
    lemma_recordings_stay_consistent, outcome_of, statistics_after, ErgodicsSystem, MoveResult,
    MoveStatistics, MoveType,
};
use crate::cdt::triangulation::{current_instant, CdtTriangulation};
use crate::geometry::traits::TriangulationMut;
use crate::util::generate_random_float;
use std::time::{Duration, Instant};
use vstd::arithmetic::div_mod::{lemma_fundamental_div_mod, lemma_fundamental_div_mod_converse};
use vstd::prelude::*;
use vstd::std_specs::cmp::PartialOrdIs;
use vstd::std_specs::ops::{AddSpec, DivSpec, MulSpec, NegSpec, SubSpec};

verus! {

/// Calls `Instant::elapsed`: the time that has passed since `start`. The
/// clock is not modelled, so nothing is claimed of the result.
#[verifier::external_body]
fn elapsed_since(start: &Instant) -> (elapsed: Duration) {
    start.elapsed()
}

/// Calls `Duration::from_millis`: the span of the given number of
/// milliseconds. Spans of time are not modelled, so nothing is claimed of
/// the result.
#[verifier::external_body]
pub(crate) fn span_of_millis(millis: u64) -> (span: Duration) {
    Duration::from_millis(millis)
}

/// Calls `Float::exp` of the `num_traits` crate: the exponential function
/// in the arithmetic of `S`. Nothing is claimed of the result.
#[verifier::external_body]
fn exp_of<S: num_traits::Float>(x: S) -> (y: S) {
    x.exp()
}

/// Calls `NumCast::from` of the `num_traits` crate: the count as a scalar,
/// or nothing where `S` cannot represent it. Nothing is claimed of the
/// result.
#[verifier::external_body]
fn scalar_from_count<S: num_traits::NumCast>(count: usize) -> (scalar: Option<S>) {
    num_traits::NumCast::from(count)
}

/// Configuration of the Metropolis-Hastings algorithm.
#[derive(Debug, Clone, Copy)]
pub struct MetropolisConfig<S> {
    /// Temperature parameter (1/beta).
    pub temperature: S,
    /// Number of Monte Carlo steps to perform.
    pub steps: u32,
    /// Number of thermalization steps before measurements count.
    pub thermalization_steps: u32,
    /// Frequency of measurements (one every so many steps).
    pub measurement_frequency: u32,
}

impl<S: Scalar> MetropolisConfig<S> {
    /// The default configuration: temperature 1, 1000 steps of which 100
    /// thermalize, one measurement every 10 steps.
    pub fn default() -> (config: Self)
        ensures
            config.steps == 1000,
            config.thermalization_steps == 100,
            config.measurement_frequency == 10,
            arithmetic_specified::<S>() ==> config.temperature == whole::<S>(1),
    {
        Self {
            temperature: S::from(1u32),
            steps: 1000,
            thermalization_steps: 100,
            measurement_frequency: 10,
        }
    }

    /// Creates a new Metropolis configuration.
    pub fn new(
        temperature: S,
        steps: u32,
        thermalization_steps: u32,
        measurement_frequency: u32,
    ) -> (config: Self)
        ensures
            config == (MetropolisConfig {
                temperature,
                steps,
                thermalization_steps,
                measurement_frequency,
            }),
    {
        Self { temperature, steps, thermalization_steps, measurement_frequency }
    }

    /// The inverse temperature `1 / T` of this configuration.
    pub open spec fn inverse_temperature(&self) -> S {
        whole::<S>(1).div_spec(self.temperature)
    }

    /// Returns the inverse temperature (beta = 1/T).
    pub fn beta(&self) -> (beta: S)
        requires
            arithmetic_total::<S>(),
        ensures
            arithmetic_specified::<S>() ==> beta == self.inverse_temperature(),
    {
        S::from(1u32) / self.temperature
    }
}

/// Record of one Monte Carlo step.
#[derive(Debug, Clone, Copy)]
pub struct MonteCarloStep<S> {
    /// Step number.
    pub step: u32,
    /// Move type attempted.
    pub move_type: MoveType,
    /// Whether the move was accepted.
    pub accepted: bool,
    /// Action before the move.
    pub action_before: S,
    /// Action after the move (if accepted).
    pub action_after: Option<S>,
    /// Change in action (if accepted).
    pub delta_action: Option<S>,
}

impl<S> MonteCarloStep<S> {
    /// The action after and the change in action are present exactly where
    /// the move was accepted.
    pub open spec fn well_formed(&self) -> bool {
        &&& self.accepted <==> self.action_after is Some
        &&& self.accepted <==> self.delta_action is Some
    }

    /// The action that is current once this step is over.
    pub open spec fn action_afterwards(&self) -> S {
        match self.action_after {
            Some(action) => action,
            None => self.action_before,
        }
    }
}

/// Measurement data collected during a simulation.
#[derive(Debug, Clone, Copy)]
pub struct Measurement<S> {
    /// Monte Carlo step when the measurement was taken.
    pub step: u32,
    /// Current action value.
    pub action: S,
    /// Number of vertices.
    pub vertices: u32,
    /// Number of edges.
    pub edges: u32,
    /// Number of triangles.
    pub triangles: u32,
}

/// A simplex count as the action takes it: itself where it fits in 32 bits,
/// and the largest 32-bit number where it does not.
pub open spec fn simplex_count(n: nat) -> u32 {
    if n <= u32::MAX {
        n as u32
    } else {
        u32::MAX
    }
}

/// Narrows a simplex count for the action; a count beyond 32 bits stays at
/// the largest 32-bit number.
pub fn narrow_count(n: usize) -> (count: u32)
    ensures
        count == simplex_count(n as nat),
{
    if n <= 0xffff_ffff {
        n as u32
    } else {
        0xffff_ffff
    }
}

/// The Metropolis rule on its two inputs: a move that does not raise the
/// action is always accepted; a move that raises it is accepted exactly
/// where the uniform draw fell below the acceptance probability.
pub fn metropolis_accepts(downhill: bool, draw_below_probability: bool) -> (accepted: bool)
    ensures
        accepted == (downhill || draw_below_probability),
        downhill ==> accepted,
{
    downhill || draw_below_probability
}

/// The exponent of the acceptance probability: `-(beta * delta)`.
pub open spec fn boltzmann_exponent_of<S: Scalar>(beta: S, delta: S) -> S {
    beta.mul_spec(delta).neg_spec()
}

/// Computes the exponent of the acceptance probability of a move that
/// changes the action by `delta` at the inverse temperature `beta`.
pub fn boltzmann_exponent<S: Scalar>(beta: S, delta: S) -> (exponent: S)
    requires
        arithmetic_total::<S>(),
    ensures
        arithmetic_specified::<S>() ==> exponent == boltzmann_exponent_of(beta, delta),
{
    (beta * delta).neg()
}

/// The probability with which a move that raises the action by `delta` is
/// accepted at the inverse temperature `beta`: the exponential of
/// `-(beta * delta)`.
pub fn acceptance_probability<S: Scalar + num_traits::Float>(beta: S, delta: S) -> (probability: S)
    requires
        arithmetic_total::<S>(),
{
    exp_of(boltzmann_exponent(beta, delta))
}

/// What a step makes of its inputs: it is accepted where its move
/// succeeded and the Metropolis rule accepts the change. An accepted step
/// records the new action and the change and ends with the new action; any
/// other step records neither and ends with the action it began with. The
/// four components are the acceptance, the recorded action, the recorded
/// change, and the action the step ends with.
pub open spec fn step_decision<S>(
    succeeded: bool,
    downhill: bool,
    below: bool,
    action_before: S,
    candidate: S,
    delta: S,
) -> (bool, Option<S>, Option<S>, S) {
    if succeeded && (downhill || below) {
        (true, Some(candidate), Some(delta), candidate)
    } else {
        (false, None, None, action_before)
    }
}

/// Decides one step from the outcome of its move, the comparison of the
/// change with zero and the draw.
pub fn decide_step<S: Copy>(
    succeeded: bool,
    downhill: bool,
    below: bool,
    action_before: S,
    candidate: S,
    delta: S,
) -> (record: (bool, Option<S>, Option<S>, S))
    ensures
        record == step_decision(succeeded, downhill, below, action_before, candidate, delta),
        record.0 == (succeeded && (downhill || below)),
        record.0 <==> record.1 is Some,
        record.0 <==> record.2 is Some,
        record.3 == if record.0 {
            candidate
        } else {
            action_before
        },
{
    if succeeded && metropolis_accepts(downhill, below) {
        (true, Some(candidate), Some(delta), candidate)
    } else {
        (false, None, None, action_before)
    }
}

/// What decided one step: whether its move succeeded, whether the change of
/// the action did not raise it, and whether the draw fell below the
/// acceptance probability.
pub struct StepOutcome {
    /// The move succeeded.
    pub succeeded: bool,
    /// The change of the action was at most zero.
    pub downhill: bool,
    /// The draw fell below the acceptance probability.
    pub below: bool,
}

/// The change from the action `before` to the action `candidate` does not
/// raise the action: it is at most zero.
pub open spec fn change_downhill<S: Scalar>(candidate: S, before: S) -> bool {
    candidate.sub_spec(before).is_le(&whole::<S>(0))
}

/// Every step is accepted exactly where its move succeeded and the
/// Metropolis rule accepted the change; and the change counts as downhill
/// where the action of the counts, less the action before the step, is at
/// most zero.
pub open spec fn steps_decided<S: Scalar>(
    action_config: ActionConfig<S>,
    vertices: u32,
    edges: u32,
    triangles: u32,
    steps: Seq<MonteCarloStep<S>>,
    outcomes: Seq<StepOutcome>,
) -> bool {
    &&& outcomes.len() == steps.len()
    &&& forall|i: int|
        #![trigger steps[i]]
        0 <= i < steps.len() ==> steps[i].accepted == (outcomes[i].succeeded && (
        outcomes[i].downhill || outcomes[i].below))
    &&& arithmetic_specified::<S>() && comparison_specified::<S>() ==> forall|i: int|
        #![trigger steps[i]]
        0 <= i < steps.len() ==> outcomes[i].downhill == change_downhill(
            action_config.action_of(vertices, edges, triangles),
            steps[i].action_before,
        )
}

/// The statistics after the moves of the steps have been attempted one
/// after the other, each with the success its outcome names.
pub open spec fn statistics_through<S>(
    stats: MoveStatistics,
    steps: Seq<MonteCarloStep<S>>,
    outcomes: Seq<StepOutcome>,
) -> MoveStatistics
    decreases steps.len(),
{
    if steps.len() == 0 || outcomes.len() != steps.len() {
        stats
    } else {
        statistics_after(
            statistics_through(stats, steps.drop_last(), outcomes.drop_last()),
            steps.last().move_type,
            outcomes.last().succeeded,
        )
    }
}

/// Whether a measurement is due at `step`: at step 0 and at every
/// `frequency`-th step after it.
pub open spec fn measurement_due(step: u32, frequency: u32) -> bool {
    step as int % frequency as int == 0
}

/// The number of measurements due in the first `steps` steps: `steps`
/// divided by `frequency`, rounded up.
pub open spec fn measurements_due(steps: nat, frequency: nat) -> nat {
    if steps == 0 {
        0
    } else {
        ((steps - 1) / frequency as int + 1) as nat
    }
}

/// One more step adds one measurement where a measurement is due at that
/// step, and none otherwise; and the measurement due at a step is the one
/// that stands at the position `step / frequency`.
pub proof fn lemma_measurement_cadence(step: u32, frequency: u32)
    requires
        frequency >= 1,
    ensures
        measurement_due(step, frequency) ==> measurements_due((step + 1) as nat, frequency as nat)
            == measurements_due(step as nat, frequency as nat) + 1,
        measurement_due(step, frequency) ==> measurements_due(step as nat, frequency as nat)
            * frequency == step,
        !measurement_due(step, frequency) ==> measurements_due(
            (step + 1) as nat,
            frequency as nat,
        ) == measurements_due(step as nat, frequency as nat),
{
    let i = step as int;
    let f = frequency as int;
    let q = i / f;
    let r = i % f;
    lemma_fundamental_div_mod(i, f);
    assert(i == f * q + r);
    assert(f * q == q * f) by (nonlinear_arith);
    if i > 0 {
        if r == 0 {
            assert((q - 1) * f + (f - 1) == q * f - 1) by (nonlinear_arith);
            lemma_fundamental_div_mod_converse(i - 1, f, q - 1, f - 1);
        } else {
            lemma_fundamental_div_mod_converse(i - 1, f, q, r - 1);
        }
    } else {
        assert(q == 0 && r == 0) by {
            lemma_fundamental_div_mod_converse(0, f, 0, 0);
        }
    }
}

/// The Metropolis-Hastings algorithm: its two configurations and the move
/// system it proposes with.
pub struct MetropolisAlgorithm<S> {
    config: MetropolisConfig<S>,
    action_config: ActionConfig<S>,
    ergodics: ErgodicsSystem,
}

/// Results of a simulation.
#[derive(Debug)]
pub struct SimulationResultsBackend<B: TriangulationMut> {
    /// Configuration used for the simulation.
    pub config: MetropolisConfig<B::Coordinate>,
    /// Action configuration used.
    pub action_config: ActionConfig<B::Coordinate>,
    /// All Monte Carlo steps performed.
    pub steps: Vec<MonteCarloStep<B::Coordinate>>,
    /// Measurements taken during the simulation.
    pub measurements: Vec<Measurement<B::Coordinate>>,
    /// Total simulation time.
    pub elapsed_time: Duration,
    /// Final triangulation state.
    pub triangulation: CdtTriangulation<B>,
}

/// The measurement at position `k` was taken at step `k * frequency`, of
/// the given simplex counts and of the action that was current once that
/// step was over.
pub open spec fn measurement_taken<S>(
    measurement: Measurement<S>,
    k: int,
    frequency: u32,
    vertices: u32,
    edges: u32,
    triangles: u32,
    steps: Seq<MonteCarloStep<S>>,
) -> bool {
    &&& measurement.step == k * frequency
    &&& k * frequency < steps.len()
    &&& measurement.action == steps[k * frequency].action_afterwards()
    &&& measurement.vertices == vertices
    &&& measurement.edges == edges
    &&& measurement.triangles == triangles
}

/// The steps and measurements that a run of `count` steps owes to the two
/// configurations and to the simplex counts of the triangulation it ran on:
/// one record for each step, numbered from zero; each step starts from the
/// action the step before it ended with; an accepted step ends with the
/// action of the counts and records the change; a measurement follows every
/// `measurement_frequency`-th step, the first of them step 0.
pub open spec fn run_recorded<S: Scalar>(
    count: nat,
    frequency: u32,
    action_config: ActionConfig<S>,
    vertices: u32,
    edges: u32,
    triangles: u32,
    steps: Seq<MonteCarloStep<S>>,
    measurements: Seq<Measurement<S>>,
) -> bool {
    &&& steps.len() == count
    &&& measurements.len() == measurements_due(count, frequency as nat)
    &&& forall|i: int|
        0 <= i < steps.len() ==> (#[trigger] steps[i]).step == i && steps[i].well_formed()
    &&& forall|i: int|
        0 < i < steps.len() ==> (#[trigger] steps[i]).action_before == steps[i
            - 1].action_afterwards()
    &&& arithmetic_specified::<S>() && steps.len() > 0 ==> steps[0].action_before
        == action_config.action_of(vertices, edges, triangles)
    &&& arithmetic_specified::<S>() ==> forall|i: int|
        0 <= i < steps.len() && (#[trigger] steps[i]).accepted ==> steps[i].action_after == Some(
            action_config.action_of(vertices, edges, triangles),
        ) && steps[i].delta_action == Some(
            action_config.action_of(vertices, edges, triangles).sub_spec(steps[i].action_before),
        )
    &&& forall|k: int|
        0 <= k < measurements.len() ==> measurement_taken(
            #[trigger] measurements[k],
            k,
            frequency,
            vertices,
            edges,
            triangles,
            steps,
        )
}

impl<S: Scalar> MetropolisAlgorithm<S> {
    /// The algorithm configuration.
    pub closed spec fn configuration(&self) -> MetropolisConfig<S> {
        self.config
    }

    /// The action configuration.
    pub closed spec fn action_configuration(&self) -> ActionConfig<S> {
        self.action_config
    }

    /// The move statistics gathered so far.
    pub closed spec fn statistics(&self) -> MoveStatistics {
        self.ergodics.statistics()
    }

    /// The move statistics gathered so far.
    pub fn move_statistics(&self) -> (stats: &MoveStatistics)
        ensures
            *stats == self.statistics(),
    {
        self.ergodics.statistics_ref()
    }

    /// Creates a new Metropolis algorithm instance, with fresh statistics.
    pub fn new(config: MetropolisConfig<S>, action_config: ActionConfig<S>) -> (algorithm: Self)
        ensures
            algorithm.configuration() == config,
            algorithm.action_configuration() == action_config,
            algorithm.statistics().total_attempted() == 0,
            algorithm.statistics().total_accepted() == 0,
            algorithm.statistics().consistent(),
    {
        Self { config, action_config, ergodics: ErgodicsSystem::new() }
    }

    /// Run the Monte Carlo simulation on the given triangulation.
    ///
    /// Each step selects a move kind and attempts the move. Where the move
    /// succeeds, the action is evaluated anew and the Metropolis rule
    /// decides on it: a change that does not raise the action is accepted,
    /// any other with the probability `exp(-beta * change)`. The moves do
    /// not change the triangulation yet, so it comes back as it went in.
    pub fn run<B: TriangulationMut<Coordinate = S>>(
        &mut self,
        triangulation: CdtTriangulation<B>,
    ) -> (results: SimulationResultsBackend<B>) where
        S: num_traits::Float,
        rand::distr::StandardUniform: rand::distr::Distribution<S>,

        requires
            arithmetic_total::<S>(),
            old(self).configuration().measurement_frequency >= 1,
        ensures
            final(self).configuration() == old(self).configuration(),
            final(self).action_configuration() == old(self).action_configuration(),
            old(self).statistics().consistent() ==> final(self).statistics().consistent(),
            final(self).statistics().no_less_than(old(self).statistics()),
            old(self).statistics().total_attempted() + old(self).configuration().steps <= u64::MAX
                ==> final(self).statistics().total_attempted() == old(
                self,
            ).statistics().total_attempted() + old(self).configuration().steps,
            final(self).statistics().total_accepted() <= old(self).statistics().total_accepted()
                + old(self).configuration().steps,
            exists|outcomes: Seq<StepOutcome>| #[trigger]
                steps_decided(
                    old(self).action_configuration(),
                    simplex_count(triangulation.backend().spec_vertex_count()),
                    simplex_count(triangulation.backend().spec_edge_count()),
                    simplex_count(triangulation.backend().spec_face_count()),
                    results.steps@,
                    outcomes,
                ) && final(self).statistics() == statistics_through(
                    old(self).statistics(),
                    results.steps@,
                    outcomes,
                ),
            results.config == old(self).configuration(),
            results.action_config == old(self).action_configuration(),
            results.triangulation == triangulation,
            run_recorded(
                old(self).configuration().steps as nat,
                old(self).configuration().measurement_frequency,
                old(self).action_configuration(),
                simplex_count(triangulation.backend().spec_vertex_count()),
                simplex_count(triangulation.backend().spec_edge_count()),
                simplex_count(triangulation.backend().spec_face_count()),
                results.steps@,
                results.measurements@,
            ),
    {
        let start_time = current_instant();
        let config = self.config;
        let action_config = self.action_config;
        let mut steps: Vec<MonteCarloStep<S>> = Vec::new();
        let mut measurements: Vec<Measurement<S>> = Vec::new();

        let vertices = narrow_count(triangulation.geometry().vertex_count());
        let edges = narrow_count(triangulation.geometry().edge_count());
        let triangles = narrow_count(triangulation.geometry().face_count());
        let mut current_action: S = action_config.calculate_action(vertices, edges, triangles);
        let beta: S = config.beta();
        let zero: S = scalar_of(0);
        let mut untouched: Vec<Vec<usize>> = Vec::new();

        let ghost mut outcomes: Seq<StepOutcome> = Seq::empty();
        let mut step_num: u32 = 0;
        while step_num < config.steps
            invariant
                arithmetic_total::<S>(),
                arithmetic_specified::<S>() ==> zero == whole::<S>(0),
                steps_decided(action_config, vertices, edges, triangles, steps@, outcomes),
                self.statistics() == statistics_through(old(self).statistics(), steps@, outcomes),
                old(self).statistics().total_attempted() + config.steps <= u64::MAX
                    ==> self.statistics().total_attempted() == old(
                    self,
                ).statistics().total_attempted() + step_num,
                self.statistics().total_accepted() <= old(self).statistics().total_accepted()
                    + step_num,
                config.measurement_frequency >= 1,
                step_num <= config.steps,
                config == old(self).configuration(),
                action_config == old(self).action_configuration(),
                self.config == config,
                self.action_config == action_config,
                old(self).statistics().consistent() ==> self.statistics().consistent(),
                self.statistics().no_less_than(old(self).statistics()),
                vertices == simplex_count(triangulation.backend().spec_vertex_count()),
                edges == simplex_count(triangulation.backend().spec_edge_count()),
                triangles == simplex_count(triangulation.backend().spec_face_count()),
                run_recorded(
                    step_num as nat,
                    config.measurement_frequency,
                    action_config,
                    vertices,
                    edges,
                    triangles,
                    steps@,
                    measurements@,
                ),
                step_num > 0 ==> current_action == steps@[step_num - 1].action_afterwards(),
                arithmetic_specified::<S>() && step_num == 0 ==> current_action
                    == action_config.action_of(vertices, edges, triangles),
            decreases config.steps - step_num,
        {
            let ghost steps_before = steps@;
            let ghost measurements_before = measurements@;
            let ghost stats_before = self.ergodics.statistics();
            let move_type = self.ergodics.select_random_move();
            let outcome = self.ergodics.attempt_move::<S>(move_type, &mut untouched);
            proof {
                if stats_before.consistent() {
                    lemma_recordings_stay_consistent(stats_before, move_type);
                }
                lemma_recordings_only_add(stats_before, move_type);
            }
            let succeeded = match outcome {
                MoveResult::Success => true,
                _ => false,
            };
            proof {
                lemma_attempt_counts(stats_before, move_type, succeeded);
                assert(self.ergodics.statistics() == statistics_after(
                    stats_before,
                    move_type,
                    succeeded,
                )) by {
                    let passed = choose|passed: bool|
                        outcome == #[trigger] outcome_of(move_type, passed)
                            && self.ergodics.statistics() == statistics_after(
                            stats_before,
                            move_type,
                            passed,
                        );
                    assert(passed == succeeded);
                }
            }
            let action_before = current_action;
            let candidate: S = action_config.calculate_action(
                narrow_count(triangulation.geometry().vertex_count()),
                narrow_count(triangulation.geometry().edge_count()),
                narrow_count(triangulation.geometry().face_count()),
            );
            let delta: S = candidate - current_action;
            let downhill = delta <= zero;
            let below = if succeeded && !downhill {
                let probability: S = acceptance_probability(beta, delta);
                let draw: S = generate_random_float();
                draw < probability
            } else {
                false
            };
            let decision = decide_step(succeeded, downhill, below, action_before, candidate, delta);
            current_action = decision.3;
            let record = MonteCarloStep {
                step: step_num,
                move_type,
                accepted: decision.0,
                action_before,
                action_after: decision.1,
                delta_action: decision.2,
            };
            let ghost outcomes_before = outcomes;
            proof {
                outcomes = outcomes.push(StepOutcome { succeeded, downhill, below });
            }
            steps.push(record);
            proof {
                lemma_measurement_cadence(step_num, config.measurement_frequency);
                assert(forall|i: int| 0 <= i < step_num ==> steps@[i] == steps_before[i]);
                assert(forall|i: int|
                    0 <= i < step_num ==> outcomes[i] == outcomes_before[i]);
                assert(steps@.drop_last() =~= steps_before);
                assert(outcomes.drop_last() =~= outcomes_before);
                assert(steps@.last() == record);
                assert(outcomes.last().succeeded == succeeded);
            }
            if step_num % config.measurement_frequency == 0 {
                measurements.push(
                    Measurement {
                        step: step_num,
                        action: current_action,
                        vertices,
                        edges,
                        triangles,
                    },
                );
            }
            proof {
                assert forall|k: int| 0 <= k < measurements@.len() implies measurement_taken(
                    #[trigger] measurements@[k],
                    k,
                    config.measurement_frequency,
                    vertices,
                    edges,
                    triangles,
                    steps@,
                ) by {
                    if k < measurements_before.len() {
                        assert(measurement_taken(
                            measurements_before[k],
                            k,
                            config.measurement_frequency,
                            vertices,
                            edges,
                            triangles,
                            steps_before,
                        ));
                    }
                }
            }
            step_num = step_num + 1;
        }
        let elapsed_time = elapsed_since(&start_time);
        let ghost recorded = steps@;
        let results = SimulationResultsBackend {
            config,
            action_config,
            steps,
            measurements,
            elapsed_time,
            triangulation,
        };
        proof {
            assert(results.steps@ == recorded);
            assert(steps_decided(
                old(self).action_configuration(),
                simplex_count(triangulation.backend().spec_vertex_count()),
                simplex_count(triangulation.backend().spec_edge_count()),
                simplex_count(triangulation.backend().spec_face_count()),
                results.steps@,
                outcomes,
            ) && self.statistics() == statistics_through(
                old(self).statistics(),
                results.steps@,
                outcomes,
            ));
        }
        results
    }
}

/// The number of accepted steps among `steps`.
pub open spec fn accepted_steps<S>(steps: Seq<MonteCarloStep<S>>) -> nat
    decreases steps.len(),
{
    if steps.len() == 0 {
        0
    } else {
        accepted_steps(steps.drop_last()) + if steps.last().accepted {
            1nat
        } else {
            0nat
        }
    }
}

/// The sum of the actions of `measurements`, added up from zero in their
/// order.
pub open spec fn action_sum<S: Scalar>(measurements: Seq<Measurement<S>>) -> S
    decreases measurements.len(),
{
    if measurements.len() == 0 {
        whole::<S>(0)
    } else {
        action_sum(measurements.drop_last()).add_spec(measurements.last().action)
    }
}

/// The quotient of two converted counts, where a count that could not be
/// converted is replaced: the numerator by 0, the denominator by 1.
pub open spec fn quotient_of<S: Scalar>(numerator: Option<S>, denominator: Option<S>) -> S {
    (match numerator {
        Some(n) => n,
        None => whole::<S>(0),
    }).div_spec(
        match denominator {
            Some(d) => d,
            None => whole::<S>(1),
        },
    )
}

/// Divides two converted counts, replacing a failed conversion of the
/// numerator by 0 and of the denominator by 1.
pub fn divide_counts<S: Scalar>(numerator: Option<S>, denominator: Option<S>) -> (quotient: S)
    requires
        arithmetic_total::<S>(),
    ensures
        arithmetic_specified::<S>() ==> quotient == quotient_of(numerator, denominator),
{
    let n: S = match numerator {
        Some(n) => n,
        None => scalar_of(0),
    };
    let d: S = match denominator {
        Some(d) => d,
        None => scalar_of(1),
    };
    n / d
}

/// Counts the accepted steps.
fn count_accepted<S: Copy>(steps: &Vec<MonteCarloStep<S>>) -> (count: usize)
    ensures
        count == accepted_steps(steps@),
{
    let mut count: usize = 0;
    let mut i: usize = 0;
    while i < steps.len()
        invariant
            i <= steps@.len(),
            count == accepted_steps(steps@.take(i as int)),
            count <= i,
        decreases steps@.len() - i,
    {
        proof {
            assert(steps@.take(i + 1).drop_last() =~= steps@.take(i as int));
        }
        if steps[i].accepted {
            count = count + 1;
        }
        i = i + 1;
    }
    proof {
        assert(steps@.take(steps@.len() as int) =~= steps@);
    }
    count
}

/// Adds up the actions of the measurements, from zero.
fn sum_actions<S: Scalar>(measurements: &Vec<Measurement<S>>) -> (sum: S)
    requires
        arithmetic_total::<S>(),
    ensures
        arithmetic_specified::<S>() ==> sum == action_sum(measurements@),
{
    let mut sum: S = scalar_of(0);
    let mut i: usize = 0;
    while i < measurements.len()
        invariant
            arithmetic_total::<S>(),
            i <= measurements@.len(),
            arithmetic_specified::<S>() ==> sum == action_sum(measurements@.take(i as int)),
        decreases measurements@.len() - i,
    {
        proof {
            assert(measurements@.take(i + 1).drop_last() =~= measurements@.take(i as int));
        }
        sum = sum + measurements[i].action;
        i = i + 1;
    }
    proof {
        assert(measurements@.take(measurements@.len() as int) =~= measurements@);
    }
    sum
}

impl<S: Scalar + num_traits::NumCast, B: TriangulationMut<Coordinate = S>> SimulationResultsBackend<
    B,
> {
    /// Calculates the acceptance rate of the simulation: the accepted steps
    /// over all steps, and zero where there is no step.
    pub fn acceptance_rate(&self) -> (rate: S)
        requires
            arithmetic_total::<S>(),
        ensures
            arithmetic_specified::<S>() && self.steps@.len() == 0 ==> rate == whole::<S>(0),
            arithmetic_specified::<S>() && self.steps@.len() > 0 ==> exists|
                accepted: Option<S>,
                total: Option<S>,
            | rate == #[trigger] quotient_of(accepted, total),
    {
        if self.steps.len() == 0 {
            return scalar_of(0);
        }
        let accepted_count = count_accepted(&self.steps);
        let total_count = self.steps.len();
        let accepted: Option<S> = scalar_from_count(accepted_count);
        let total: Option<S> = scalar_from_count(total_count);
        let rate = divide_counts(accepted, total);
        assert(arithmetic_specified::<S>() ==> rate == quotient_of(accepted, total));
        rate
    }

    /// Calculates the average action over all measurements: their sum over
    /// their number, and zero where there is no measurement.
    pub fn average_action(&self) -> (average: S)
        requires
            arithmetic_total::<S>(),
        ensures
            arithmetic_specified::<S>() && self.measurements@.len() == 0 ==> average == whole::<S>(
                0,
            ),
            arithmetic_specified::<S>() && self.measurements@.len() > 0 ==> exists|
                count: Option<S>,
            | average == #[trigger] quotient_of(Some(action_sum(self.measurements@)), count),
    {
        if self.measurements.len() == 0 {
            return scalar_of(0);
        }
        let sum: S = sum_actions(&self.measurements);
        let count: Option<S> = scalar_from_count(self.measurements.len());
        let average = divide_counts(Some(sum), count);
        assert(arithmetic_specified::<S>() ==> average == quotient_of(
            Some(action_sum(self.measurements@)),
            count,
        ));
        average
    }

    /// Returns the measurements taken at or after the end of
    /// thermalization, in their order.
    pub fn equilibrium_measurements(&self) -> (equilibrium: Vec<&Measurement<S>>)
        ensures
            equilibrium@.map_values(|m: &Measurement<S>| *m) == self.measurements@.filter(
                |m: Measurement<S>| m.step >= self.config.thermalization_steps,
            ),
    {
        let ghost kept = |m: Measurement<S>| m.step >= self.config.thermalization_steps;
        let mut equilibrium: Vec<&Measurement<S>> = Vec::new();
        let mut i: usize = 0;
        while i < self.measurements.len()
            invariant
                i <= self.measurements@.len(),
                kept == |m: Measurement<S>| m.step >= self.config.thermalization_steps,
                equilibrium@.map_values(|m: &Measurement<S>| *m) == self.measurements@.take(
                    i as int,
                ).filter(kept),
            decreases self.measurements@.len() - i,
        {
            proof {
                reveal(Seq::filter);
                assert(self.measurements@.take(i + 1).drop_last() =~= self.measurements@.take(
                    i as int,
                ));
            }
            let ghost before = equilibrium@;
            if self.measurements[i].step >= self.config.thermalization_steps {
                equilibrium.push(&self.measurements[i]);
                assert(equilibrium@.map_values(|m: &Measurement<S>| *m) =~= before.map_values(
                    |m: &Measurement<S>| *m,
                ).push(self.measurements@[i as int]));
            }
            i = i + 1;
        }
        proof {
            assert(self.measurements@.take(self.measurements@.len() as int) =~= self.measurements@);
        }
        equilibrium
    }
}

} // verus!
