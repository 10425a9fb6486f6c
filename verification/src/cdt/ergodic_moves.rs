//! Ergodic moves of two-dimensional triangulations: the move kinds, their
//! outcomes and the statistics kept about them.
//!
//! The moves themselves change nothing yet. An attempt is decided by a
//! biased coin, so that the bookkeeping around it can be exercised.

use crate::cdt::action::{
    arithmetic_specified, arithmetic_total, comparison_specified, whole, Scalar,
};
use vstd::std_specs::cmp::PartialOrdIs;
use vstd::std_specs::ops::DivSpec;
use crate::util::generate_random_float;
use vstd::prelude::*;

verus! {

/// Types of ergodic moves available.
#[derive(Debug, Clone, Copy, PartialEq, Eq, Hash, Structural)]
pub enum MoveType {
    /// (2,2) move: flip the edge between two triangles.
    Move22,
    /// (1,3) move: add a vertex by subdividing a triangle.
    Move13Add,
    /// (3,1) move: remove a vertex by merging triangles.
    Move31Remove,
    /// Edge flip.
    EdgeFlip,
}

/// Result of attempting an ergodic move.
#[derive(Debug, Clone, PartialEq, Eq)]
pub enum MoveResult {
    /// Move was successfully applied.
    Success,
    /// Move was rejected due to causality constraints.
    CausalityViolation,
    /// Move was rejected due to geometric constraints.
    GeometricViolation,
    /// Move was rejected for another reason.
    Rejected(String),
}

/// Attempt and acceptance counters, one pair for each move kind.
#[derive(Debug)]
pub struct MoveStatistics {
    /// Number of (2,2) moves attempted.
    pub moves_22_attempted: u64,
    /// Number of (2,2) moves accepted.
    pub moves_22_accepted: u64,
    /// Number of (1,3) moves attempted.
    pub moves_13_attempted: u64,
    /// Number of (1,3) moves accepted.
    pub moves_13_accepted: u64,
    /// Number of (3,1) moves attempted.
    pub moves_31_attempted: u64,
    /// Number of (3,1) moves accepted.
    pub moves_31_accepted: u64,
    /// Number of edge flips attempted.
    pub edge_flips_attempted: u64,
    /// Number of edge flips accepted.
    pub edge_flips_accepted: u64,
}

/// `n + 1`, stopping at the largest value of the counter.
pub open spec fn bumped(n: u64) -> u64 {
    if n < u64::MAX {
        (n + 1) as u64
    } else {
        n
    }
}

/// The two counts of a rate, both halved as often as it takes for the
/// attempts to fit in 32 bits. Halving both keeps their quotient, up to the
/// bits that are dropped.
pub open spec fn scaled_counts(attempted: nat, accepted: nat) -> (nat, nat)
    decreases attempted,
{
    if attempted <= u32::MAX {
        (attempted, accepted)
    } else {
        scaled_counts(attempted / 2, accepted / 2)
    }
}

/// The denominator of a rate: the scaled attempts.
pub open spec fn rate_denominator(attempted: nat, accepted: nat) -> u32 {
    scaled_counts(attempted, accepted).0 as u32
}

/// The numerator of a rate: the scaled acceptances, limited to 32 bits.
/// The limit is reached only where there are more acceptances than
/// attempts.
pub open spec fn rate_numerator(attempted: nat, accepted: nat) -> u32 {
    if scaled_counts(attempted, accepted).1 <= u32::MAX {
        scaled_counts(attempted, accepted).1 as u32
    } else {
        u32::MAX
    }
}

/// The scaled attempts fit in 32 bits; they are positive where anything
/// was attempted; and the scaled acceptances do not exceed them where the
/// acceptances do not exceed the attempts.
pub proof fn lemma_scaled_counts(attempted: nat, accepted: nat)
    ensures
        scaled_counts(attempted, accepted).0 <= u32::MAX,
        attempted > 0 ==> scaled_counts(attempted, accepted).0 > 0,
        accepted <= attempted ==> scaled_counts(attempted, accepted).1 <= scaled_counts(
            attempted,
            accepted,
        ).0,
    decreases attempted,
{
    if attempted > u32::MAX {
        lemma_scaled_counts(attempted / 2, accepted / 2);
    }
}

/// The rate `accepted / attempted`, and zero where nothing was attempted.
/// Counts that do not fit in 32 bits are scaled down together.
pub open spec fn rate_of<S: Scalar>(attempted: nat, accepted: nat) -> S {
    if attempted == 0 {
        crate::cdt::action::whole::<S>(0)
    } else {
        vstd::std_specs::ops::DivSpec::div_spec(
            crate::cdt::action::whole::<S>(rate_numerator(attempted, accepted)),
            crate::cdt::action::whole::<S>(rate_denominator(attempted, accepted)),
        )
    }
}

/// Computes a rate from its two counts.
fn compute_rate<S: Scalar>(attempted: u128, accepted: u128) -> (rate: S)
    requires
        arithmetic_total::<S>(),
    ensures
        crate::cdt::action::arithmetic_specified::<S>() ==> rate == rate_of::<S>(
            attempted as nat,
            accepted as nat,
        ),
{
    if attempted == 0 {
        return S::from(0u32);
    }
    let mut scaled_attempted = attempted;
    let mut scaled_accepted = accepted;
    while scaled_attempted > 0xffff_ffff
        invariant
            scaled_counts(scaled_attempted as nat, scaled_accepted as nat) == scaled_counts(
                attempted as nat,
                accepted as nat,
            ),
        decreases scaled_attempted,
    {
        scaled_attempted = scaled_attempted / 2;
        scaled_accepted = scaled_accepted / 2;
    }
    let numerator: u32 = if scaled_accepted <= 0xffff_ffff {
        scaled_accepted as u32
    } else {
        0xffff_ffff
    };
    let denominator: u32 = scaled_attempted as u32;
    let numerator_scalar: S = S::from(numerator);
    let denominator_scalar: S = S::from(denominator);
    numerator_scalar / denominator_scalar
}

impl MoveStatistics {
    /// Attempts recorded for a move kind.
    pub open spec fn attempted(&self, move_type: MoveType) -> u64 {
        match move_type {
            MoveType::Move22 => self.moves_22_attempted,
            MoveType::Move13Add => self.moves_13_attempted,
            MoveType::Move31Remove => self.moves_31_attempted,
            MoveType::EdgeFlip => self.edge_flips_attempted,
        }
    }

    /// Acceptances recorded for a move kind.
    pub open spec fn accepted(&self, move_type: MoveType) -> u64 {
        match move_type {
            MoveType::Move22 => self.moves_22_accepted,
            MoveType::Move13Add => self.moves_13_accepted,
            MoveType::Move31Remove => self.moves_31_accepted,
            MoveType::EdgeFlip => self.edge_flips_accepted,
        }
    }

    /// Attempts recorded over all kinds.
    pub open spec fn total_attempted(&self) -> int {
        self.moves_22_attempted + self.moves_13_attempted + self.moves_31_attempted
            + self.edge_flips_attempted
    }

    /// Acceptances recorded over all kinds.
    pub open spec fn total_accepted(&self) -> int {
        self.moves_22_accepted + self.moves_13_accepted + self.moves_31_accepted
            + self.edge_flips_accepted
    }

    /// No kind has more acceptances than attempts.
    pub open spec fn consistent(&self) -> bool {
        forall|move_type: MoveType| #[trigger]
            self.accepted(move_type) <= self.attempted(move_type)
    }

    /// No counter of these statistics lies below its counterpart in
    /// `earlier`.
    pub open spec fn no_less_than(&self, earlier: MoveStatistics) -> bool {
        forall|move_type: MoveType|
            #![trigger self.attempted(move_type)]
            #![trigger self.accepted(move_type)]
            earlier.attempted(move_type) <= self.attempted(move_type) && earlier.accepted(move_type)
                <= self.accepted(move_type)
    }

    /// These statistics with one more attempt of `move_type`.
    pub open spec fn with_attempt(&self, move_type: MoveType) -> MoveStatistics {
        match move_type {
            MoveType::Move22 => MoveStatistics {
                moves_22_attempted: bumped(self.moves_22_attempted),
                ..*self
            },
            MoveType::Move13Add => MoveStatistics {
                moves_13_attempted: bumped(self.moves_13_attempted),
                ..*self
            },
            MoveType::Move31Remove => MoveStatistics {
                moves_31_attempted: bumped(self.moves_31_attempted),
                ..*self
            },
            MoveType::EdgeFlip => MoveStatistics {
                edge_flips_attempted: bumped(self.edge_flips_attempted),
                ..*self
            },
        }
    }

    /// These statistics with one more acceptance of `move_type`.
    pub open spec fn with_success(&self, move_type: MoveType) -> MoveStatistics {
        match move_type {
            MoveType::Move22 => MoveStatistics {
                moves_22_accepted: bumped(self.moves_22_accepted),
                ..*self
            },
            MoveType::Move13Add => MoveStatistics {
                moves_13_accepted: bumped(self.moves_13_accepted),
                ..*self
            },
            MoveType::Move31Remove => MoveStatistics {
                moves_31_accepted: bumped(self.moves_31_accepted),
                ..*self
            },
            MoveType::EdgeFlip => MoveStatistics {
                edge_flips_accepted: bumped(self.edge_flips_accepted),
                ..*self
            },
        }
    }

    /// Creates a statistics tracker with every counter at zero.
    pub fn new() -> (stats: Self)
        ensures
            stats.total_attempted() == 0,
            stats.total_accepted() == 0,
            stats.consistent(),
    {
        Self {
            moves_22_attempted: 0,
            moves_22_accepted: 0,
            moves_13_attempted: 0,
            moves_13_accepted: 0,
            moves_31_attempted: 0,
            moves_31_accepted: 0,
            edge_flips_attempted: 0,
            edge_flips_accepted: 0,
        }
    }

    /// Records an attempted move. A counter that has reached its largest
    /// value stays there.
    pub fn record_attempt(&mut self, move_type: MoveType)
        ensures
            *final(self) == old(self).with_attempt(move_type),
    {
        match move_type {
            MoveType::Move22 => {
                self.moves_22_attempted = self.moves_22_attempted.saturating_add(1);
            },
            MoveType::Move13Add => {
                self.moves_13_attempted = self.moves_13_attempted.saturating_add(1);
            },
            MoveType::Move31Remove => {
                self.moves_31_attempted = self.moves_31_attempted.saturating_add(1);
            },
            MoveType::EdgeFlip => {
                self.edge_flips_attempted = self.edge_flips_attempted.saturating_add(1);
            },
        }
    }

    /// Records a successful move. A counter that has reached its largest
    /// value stays there.
    pub fn record_success(&mut self, move_type: MoveType)
        ensures
            *final(self) == old(self).with_success(move_type),
    {
        match move_type {
            MoveType::Move22 => {
                self.moves_22_accepted = self.moves_22_accepted.saturating_add(1);
            },
            MoveType::Move13Add => {
                self.moves_13_accepted = self.moves_13_accepted.saturating_add(1);
            },
            MoveType::Move31Remove => {
                self.moves_31_accepted = self.moves_31_accepted.saturating_add(1);
            },
            MoveType::EdgeFlip => {
                self.edge_flips_accepted = self.edge_flips_accepted.saturating_add(1);
            },
        }
    }

    /// Calculates the acceptance rate of a move kind: accepted over
    /// attempted, and zero where nothing was attempted.
    pub fn acceptance_rate<S: Scalar>(&self, move_type: MoveType) -> (rate: S)
        requires
            arithmetic_total::<S>(),
        ensures
            crate::cdt::action::arithmetic_specified::<S>() ==> rate == rate_of::<S>(
                self.attempted(move_type) as nat,
                self.accepted(move_type) as nat,
            ),
    {
        let (attempted, accepted) = match move_type {
            MoveType::Move22 => (self.moves_22_attempted, self.moves_22_accepted),
            MoveType::Move13Add => (self.moves_13_attempted, self.moves_13_accepted),
            MoveType::Move31Remove => (self.moves_31_attempted, self.moves_31_accepted),
            MoveType::EdgeFlip => (self.edge_flips_attempted, self.edge_flips_accepted),
        };
        compute_rate(attempted as u128, accepted as u128)
    }

    /// Calculates the acceptance rate over all move kinds.
    pub fn total_acceptance_rate<S: Scalar>(&self) -> (rate: S)
        requires
            arithmetic_total::<S>(),
        ensures
            crate::cdt::action::arithmetic_specified::<S>() ==> rate == rate_of::<S>(
                self.total_attempted() as nat,
                self.total_accepted() as nat,
            ),
    {
        let total_attempted: u128 = self.moves_22_attempted as u128 + self.moves_13_attempted as u128
            + self.moves_31_attempted as u128 + self.edge_flips_attempted as u128;
        let total_accepted: u128 = self.moves_22_accepted as u128 + self.moves_13_accepted as u128
            + self.moves_31_accepted as u128 + self.edge_flips_accepted as u128;
        compute_rate(total_attempted, total_accepted)
    }
}

impl Default for MoveStatistics {
    fn default() -> (stats: Self)
        ensures
            stats.total_attempted() == 0,
            stats.total_accepted() == 0,
    {
        MoveStatistics::new()
    }
}

/// Recording an attempt keeps the statistics consistent, and so does
/// recording a success of a kind that has an attempt without one.
pub proof fn lemma_recordings_stay_consistent(stats: MoveStatistics, move_type: MoveType)
    requires
        stats.consistent(),
    ensures
        stats.with_attempt(move_type).consistent(),
        stats.accepted(move_type) < stats.attempted(move_type) ==> stats.with_success(
            move_type,
        ).consistent(),
        stats.with_attempt(move_type).with_success(move_type).consistent(),
{
    let attempted = stats.with_attempt(move_type);
    assert forall|kind: MoveType| #[trigger] attempted.accepted(kind) <= attempted.attempted(kind) by {
        assert(stats.accepted(kind) <= stats.attempted(kind));
    }
    let both = attempted.with_success(move_type);
    assert forall|kind: MoveType| #[trigger] both.accepted(kind) <= both.attempted(kind) by {
        assert(stats.accepted(kind) <= stats.attempted(kind));
    }
    if stats.accepted(move_type) < stats.attempted(move_type) {
        let succeeded = stats.with_success(move_type);
        assert forall|kind: MoveType| #[trigger]
            succeeded.accepted(kind) <= succeeded.attempted(kind) by {
            assert(stats.accepted(kind) <= stats.attempted(kind));
        }
    }
}

/// Recording an attempt, with or without its success, lowers no counter.
pub proof fn lemma_recordings_only_add(stats: MoveStatistics, move_type: MoveType)
    ensures
        stats.with_attempt(move_type).no_less_than(stats),
        stats.with_attempt(move_type).with_success(move_type).no_less_than(stats),
{
}

/// An attempt adds one to the attempts over all kinds, short of the largest
/// value of a counter, and at most one to the acceptances over all kinds.
pub proof fn lemma_attempt_counts(stats: MoveStatistics, move_type: MoveType, passed: bool)
    ensures
        stats.total_attempted() < u64::MAX ==> statistics_after(
            stats,
            move_type,
            passed,
        ).total_attempted() == stats.total_attempted() + 1,
        stats.total_accepted() <= statistics_after(stats, move_type, passed).total_accepted()
            <= stats.total_accepted() + 1,
{
}

/// Every acceptance rate of consistent statistics is a quotient whose
/// numerator does not exceed its denominator, for each kind and for the
/// aggregate, however large the counts; and the denominator is positive
/// wherever anything was attempted. Such a quotient lies between zero and
/// one.
pub proof fn lemma_rate_operands_ordered(stats: MoveStatistics, move_type: MoveType)
    requires
        stats.consistent(),
    ensures
        rate_numerator(stats.attempted(move_type) as nat, stats.accepted(move_type) as nat)
            <= rate_denominator(
            stats.attempted(move_type) as nat,
            stats.accepted(move_type) as nat,
        ),
        stats.attempted(move_type) > 0 ==> rate_denominator(
            stats.attempted(move_type) as nat,
            stats.accepted(move_type) as nat,
        ) > 0,
        stats.total_accepted() <= stats.total_attempted(),
        rate_numerator(stats.total_attempted() as nat, stats.total_accepted() as nat)
            <= rate_denominator(stats.total_attempted() as nat, stats.total_accepted() as nat),
        stats.total_attempted() > 0 ==> rate_denominator(
            stats.total_attempted() as nat,
            stats.total_accepted() as nat,
        ) > 0,
{
    assert(stats.accepted(MoveType::Move22) <= stats.attempted(MoveType::Move22));
    assert(stats.accepted(MoveType::Move13Add) <= stats.attempted(MoveType::Move13Add));
    assert(stats.accepted(MoveType::Move31Remove) <= stats.attempted(MoveType::Move31Remove));
    assert(stats.accepted(MoveType::EdgeFlip) <= stats.attempted(MoveType::EdgeFlip));
    assert(stats.accepted(move_type) <= stats.attempted(move_type));
    lemma_scaled_counts(stats.attempted(move_type) as nat, stats.accepted(move_type) as nat);
    lemma_scaled_counts(stats.total_attempted() as nat, stats.total_accepted() as nat);
}

/// The random number generator of the `rand` crate that is local to a
/// thread. Its state is not modelled.
#[verifier::external_type_specification]
#[verifier::external_body]
pub struct ExThreadRng(rand::rngs::ThreadRng);

/// Calls `rand::rng`, which hands out the generator of the current thread.
#[verifier::external_body]
fn thread_generator() -> (generator: rand::rngs::ThreadRng) {
    rand::rng()
}

/// Calls `Rng::random_range` on the range from 0 up to, and without,
/// `bound`. The crate documents that the value lies in the range it is
/// given, and that an empty range makes the call panic.
#[verifier::external_body]
fn draw_below(generator: &mut rand::rngs::ThreadRng, bound: u32) -> (index: u32)
    requires
        bound > 0,
    ensures
        index < bound,
{
    rand::Rng::random_range(generator, 0..bound)
}

/// The move kind that stands at `index` among the four kinds; every index
/// past the third gives the edge flip.
pub open spec fn move_type_at(index: u32) -> MoveType {
    if index == 0 {
        MoveType::Move22
    } else if index == 1 {
        MoveType::Move13Add
    } else if index == 2 {
        MoveType::Move31Remove
    } else {
        MoveType::EdgeFlip
    }
}

/// Picks the move kind for a drawn index.
pub fn move_type_of_index(index: u32) -> (move_type: MoveType)
    ensures
        move_type == move_type_at(index),
{
    match index {
        0 => MoveType::Move22,
        1 => MoveType::Move13Add,
        2 => MoveType::Move31Remove,
        _ => MoveType::EdgeFlip,
    }
}

/// What an attempt of `move_type` reports when its coin has come up
/// `passed`: success, or the violation that this kind stands for.
pub open spec fn outcome_of(move_type: MoveType, passed: bool) -> MoveResult {
    if passed {
        MoveResult::Success
    } else if move_type == MoveType::Move13Add {
        MoveResult::GeometricViolation
    } else {
        MoveResult::CausalityViolation
    }
}

/// The statistics after an attempt of `move_type` whose coin has come up
/// `passed`.
pub open spec fn statistics_after(stats: MoveStatistics, move_type: MoveType, passed: bool)
    -> MoveStatistics {
    if passed {
        stats.with_attempt(move_type).with_success(move_type)
    } else {
        stats.with_attempt(move_type)
    }
}

/// The numerator and denominator of the chance that an attempt of
/// `move_type` fails: 1/2 for the (2,2) move, 3/10 for the (1,3) move, 2/5
/// for the (3,1) move and 1/5 for the edge flip.
pub open spec fn failure_odds(move_type: MoveType) -> (u32, u32) {
    match move_type {
        MoveType::Move22 => (1, 2),
        MoveType::Move13Add => (3, 10),
        MoveType::Move31Remove => (2, 5),
        MoveType::EdgeFlip => (1, 5),
    }
}

/// The threshold that a draw from the unit interval must exceed for an
/// attempt of `move_type` to succeed: the quotient of its failure odds.
pub open spec fn failure_threshold<S: Scalar>(move_type: MoveType) -> S {
    whole::<S>(failure_odds(move_type).0).div_spec(whole::<S>(failure_odds(move_type).1))
}

/// The draw lets an attempt of `move_type` succeed: it is greater than the
/// failure threshold of the kind.
pub open spec fn draw_passes<S: Scalar>(move_type: MoveType, draw: S) -> bool {
    draw.is_gt(&failure_threshold::<S>(move_type))
}

/// Decides an attempt of `move_type` on its draw: the attempt succeeds
/// where the draw exceeds the failure threshold of the kind.
pub fn attempt_passes<S: Scalar>(move_type: MoveType, draw: S) -> (passed: bool)
    requires
        arithmetic_total::<S>(),
    ensures
        arithmetic_specified::<S>() && comparison_specified::<S>() ==> passed == draw_passes(
            move_type,
            draw,
        ),
{
    let (numerator, denominator): (u32, u32) = match move_type {
        MoveType::Move22 => (1, 2),
        MoveType::Move13Add => (3, 10),
        MoveType::Move31Remove => (2, 5),
        MoveType::EdgeFlip => (1, 5),
    };
    let threshold: S = S::from(numerator) / S::from(denominator);
    draw > threshold
}

/// An attempt of `move_type` led from the statistics `before` to `after` and
/// reported `result` as some draw decided it.
pub open spec fn attempt_drawn<S: Scalar>(
    before: MoveStatistics,
    after: MoveStatistics,
    result: MoveResult,
    move_type: MoveType,
) -> bool {
    exists|draw: S|
        result == outcome_of(move_type, #[trigger] draw_passes(move_type, draw)) && after
            == statistics_after(before, move_type, draw_passes(move_type, draw))
}

/// An attempt of `move_type` led from the statistics `before` to `after` and
/// reported `result`, whichever way its coin came up.
pub open spec fn attempt_recorded(
    before: MoveStatistics,
    after: MoveStatistics,
    result: MoveResult,
    move_type: MoveType,
) -> bool {
    exists|passed: bool|
        result == #[trigger] outcome_of(move_type, passed) && after == statistics_after(
            before,
            move_type,
            passed,
        )
}

/// The ergodic move system: the statistics and the source of randomness.
pub struct ErgodicsSystem {
    /// Move statistics.
    pub stats: MoveStatistics,
    /// Random number generator.
    rng: rand::rngs::ThreadRng,
}

impl ErgodicsSystem {
    /// The statistics this system holds.
    pub closed spec fn statistics(&self) -> MoveStatistics {
        self.stats
    }

    /// The statistics this system holds.
    pub fn statistics_ref(&self) -> (stats: &MoveStatistics)
        ensures
            *stats == self.statistics(),
    {
        &self.stats
    }

    /// Creates a new ergodics system with every counter at zero.
    pub fn new() -> (system: Self)
        ensures
            system.statistics().total_attempted() == 0,
            system.statistics().total_accepted() == 0,
            system.statistics().consistent(),
    {
        Self { stats: MoveStatistics::new(), rng: thread_generator() }
    }

    /// Selects one of the four move kinds at random, each with the same
    /// chance: an index below four is drawn, and the kind that stands at it
    /// is returned. The statistics are left as they are.
    pub fn select_random_move(&mut self) -> (move_type: MoveType)
        ensures
            final(self).statistics() == old(self).statistics(),
            exists|index: u32| index < 4 && move_type == #[trigger] move_type_at(index),
    {
        let index = draw_below(&mut self.rng, 4);
        let move_type = move_type_of_index(index);
        assert(index < 4 && move_type == move_type_at(index));
        move_type
    }

    /// Books an attempt of `move_type` whose coin has come up `passed`: the
    /// attempt is counted, and the success too where there is one.
    pub fn conclude_attempt(&mut self, move_type: MoveType, passed: bool) -> (result: MoveResult)
        ensures
            result == outcome_of(move_type, passed),
            final(self).statistics() == statistics_after(
                old(self).statistics(),
                move_type,
                passed,
            ),
    {
        self.stats.record_attempt(move_type);
        if passed {
            self.stats.record_success(move_type);
            MoveResult::Success
        } else {
            match move_type {
                MoveType::Move13Add => MoveResult::GeometricViolation,
                _ => MoveResult::CausalityViolation,
            }
        }
    }

    /// Attempts a move of the given kind: draws from the unit interval and
    /// lets the attempt succeed where the draw exceeds the failure odds of
    /// the kind. The triangulation is not touched.
    pub fn attempt_move<S: Scalar>(
        &mut self,
        move_type: MoveType,
        triangulation: &mut Vec<Vec<usize>>,
    ) -> (result: MoveResult) where rand::distr::StandardUniform: rand::distr::Distribution<S>
        requires
            arithmetic_total::<S>(),
        ensures
            *final(triangulation) == *old(triangulation),
            attempt_recorded(old(self).statistics(), final(self).statistics(), result, move_type),
            arithmetic_specified::<S>() && comparison_specified::<S>() ==> attempt_drawn::<S>(
                old(self).statistics(),
                final(self).statistics(),
                result,
                move_type,
            ),
    {
        let draw: S = generate_random_float();
        let passed = attempt_passes(move_type, draw);
        let result = self.conclude_attempt(move_type, passed);
        assert(result == outcome_of(move_type, passed));
        assert(arithmetic_specified::<S>() && comparison_specified::<S>() ==> result
            == outcome_of(move_type, draw_passes(move_type, draw)) && self.statistics()
            == statistics_after(old(self).statistics(), move_type, draw_passes(move_type, draw)));
        result
    }

    /// Attempts a (2,2) move, which would flip the edge between two
    /// triangles.
    pub fn attempt_22_move<S: Scalar>(&mut self, triangulation: &mut Vec<Vec<usize>>) -> (result:
        MoveResult) where rand::distr::StandardUniform: rand::distr::Distribution<S>
        requires
            arithmetic_total::<S>(),
        ensures
            *final(triangulation) == *old(triangulation),
            attempt_recorded(old(self).statistics(), final(self).statistics(), result, MoveType::Move22),
            arithmetic_specified::<S>() && comparison_specified::<S>() ==> attempt_drawn::<S>(
                old(self).statistics(),
                final(self).statistics(),
                result,
                MoveType::Move22,
            ),
    {
        self.attempt_move::<S>(MoveType::Move22, triangulation)
    }

    /// Attempts a (1,3) move, which would add a vertex inside a triangle.
    pub fn attempt_13_move<S: Scalar>(&mut self, triangulation: &mut Vec<Vec<usize>>) -> (result:
        MoveResult) where rand::distr::StandardUniform: rand::distr::Distribution<S>
        requires
            arithmetic_total::<S>(),
        ensures
            *final(triangulation) == *old(triangulation),
            attempt_recorded(old(self).statistics(), final(self).statistics(), result, MoveType::Move13Add),
            arithmetic_specified::<S>() && comparison_specified::<S>() ==> attempt_drawn::<S>(
                old(self).statistics(),
                final(self).statistics(),
                result,
                MoveType::Move13Add,
            ),
    {
        self.attempt_move::<S>(MoveType::Move13Add, triangulation)
    }

    /// Attempts a (3,1) move, which would remove a vertex and merge the
    /// triangles around it.
    pub fn attempt_31_move<S: Scalar>(&mut self, triangulation: &mut Vec<Vec<usize>>) -> (result:
        MoveResult) where rand::distr::StandardUniform: rand::distr::Distribution<S>
        requires
            arithmetic_total::<S>(),
        ensures
            *final(triangulation) == *old(triangulation),
            attempt_recorded(old(self).statistics(), final(self).statistics(), result, MoveType::Move31Remove),
            arithmetic_specified::<S>() && comparison_specified::<S>() ==> attempt_drawn::<S>(
                old(self).statistics(),
                final(self).statistics(),
                result,
                MoveType::Move31Remove,
            ),
    {
        self.attempt_move::<S>(MoveType::Move31Remove, triangulation)
    }

    /// Attempts an edge flip.
    pub fn attempt_edge_flip<S: Scalar>(&mut self, triangulation: &mut Vec<Vec<usize>>) -> (result:
        MoveResult) where rand::distr::StandardUniform: rand::distr::Distribution<S>
        requires
            arithmetic_total::<S>(),
        ensures
            *final(triangulation) == *old(triangulation),
            attempt_recorded(old(self).statistics(), final(self).statistics(), result, MoveType::EdgeFlip),
            arithmetic_specified::<S>() && comparison_specified::<S>() ==> attempt_drawn::<S>(
                old(self).statistics(),
                final(self).statistics(),
                result,
                MoveType::EdgeFlip,
            ),
    {
        self.attempt_move::<S>(MoveType::EdgeFlip, triangulation)
    }

    /// Attempts a move of a kind selected at random.
    pub fn attempt_random_move<S: Scalar>(&mut self, triangulation: &mut Vec<Vec<usize>>) -> (result:
        MoveResult) where rand::distr::StandardUniform: rand::distr::Distribution<S>
        requires
            arithmetic_total::<S>(),
        ensures
            *final(triangulation) == *old(triangulation),
            exists|move_type: MoveType| #[trigger]
                attempt_recorded(old(self).statistics(), final(self).statistics(), result, move_type),
            arithmetic_specified::<S>() && comparison_specified::<S>() ==> exists|
                move_type: MoveType,
            | #[trigger]
                attempt_drawn::<S>(
                    old(self).statistics(),
                    final(self).statistics(),
                    result,
                    move_type,
                ),
    {
        let move_type = self.select_random_move();
        match move_type {
            MoveType::Move22 => self.attempt_22_move::<S>(triangulation),
            MoveType::Move13Add => self.attempt_13_move::<S>(triangulation),
            MoveType::Move31Remove => self.attempt_31_move::<S>(triangulation),
            MoveType::EdgeFlip => self.attempt_edge_flip::<S>(triangulation),
        }
    }
}

impl Default for ErgodicsSystem {
    fn default() -> (system: Self)
        ensures
            system.statistics().total_attempted() == 0,
            system.statistics().total_accepted() == 0,
    {
        ErgodicsSystem::new()
    }
}

} // verus!
