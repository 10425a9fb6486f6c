//! Configuration of a simulation: the parameters, their defaults, overrides
//! and the rules they must meet.

use crate::cdt::action::{
    arithmetic_specified, arithmetic_total, comparison_specified, scalar_of, whole, ActionConfig,
    Scalar,
};
use crate::cdt::metropolis::MetropolisConfig;
use crate::errors::CdtError;
use vstd::prelude::*;
use vstd::std_specs::cmp::PartialOrdIs;
use vstd::std_specs::ops::DivSpec;
use vstd::string::StringExecFns;

verus! {

/// Main configuration of a simulation.
#[derive(Debug, Clone, Copy)]
pub struct CdtConfig<S> {
    /// Dimensionality of the triangulation; 2 where none is given.
    pub dimension: Option<u8>,
    /// Number of vertices in the initial triangulation.
    pub vertices: u32,
    /// Number of timeslices in the triangulation.
    pub timeslices: u32,
    /// Temperature for the Metropolis algorithm.
    pub temperature: S,
    /// Number of Monte Carlo steps to execute.
    pub steps: u32,
    /// Number of thermalization steps (before measurements count).
    pub thermalization_steps: u32,
    /// Measurement frequency (one measurement every so many steps).
    pub measurement_frequency: u32,
    /// Coupling constant for vertices in the action.
    pub coupling_0: S,
    /// Coupling constant for triangles in the action.
    pub coupling_2: S,
    /// Cosmological constant in the action.
    pub cosmological_constant: S,
    /// Run the full simulation, or only generate the triangulation.
    pub simulate: bool,
}

/// Controls how the dimension is overridden when configurations are merged.
#[derive(Debug, Clone, Copy, PartialEq, Eq, Structural)]
pub enum DimensionOverride {
    /// Replace the dimension with the supplied value.
    Value(u8),
    /// Clear the dimension so it falls back to the default.
    Clear,
}

/// Optional override values for a configuration. A field that is `None`
/// leaves the configuration as it is.
#[derive(Debug, Clone, Copy)]
pub struct CdtConfigOverrides<S> {
    /// Optional override for the triangulation dimension.
    pub dimension: Option<DimensionOverride>,
    /// Optional override for the vertex count.
    pub vertices: Option<u32>,
    /// Optional override for the timeslice count.
    pub timeslices: Option<u32>,
    /// Optional override for the temperature.
    pub temperature: Option<S>,
    /// Optional override for the total number of steps.
    pub steps: Option<u32>,
    /// Optional override for the number of thermalization steps.
    pub thermalization_steps: Option<u32>,
    /// Optional override for the measurement frequency.
    pub measurement_frequency: Option<u32>,
    /// Optional override for the vertex coupling.
    pub coupling_0: Option<S>,
    /// Optional override for the triangle coupling.
    pub coupling_2: Option<S>,
    /// Optional override for the cosmological constant.
    pub cosmological_constant: Option<S>,
    /// Optional override for the simulation flag.
    pub simulate: Option<bool>,
}

impl<S> Default for CdtConfigOverrides<S> {
    fn default() -> (overrides: Self)
        ensures
            overrides == CdtConfigOverrides::<S>::none(),
    {
        Self {
            dimension: None,
            vertices: None,
            timeslices: None,
            temperature: None,
            steps: None,
            thermalization_steps: None,
            measurement_frequency: None,
            coupling_0: None,
            coupling_2: None,
            cosmological_constant: None,
            simulate: None,
        }
    }
}

impl<S> CdtConfigOverrides<S> {
    /// The overrides that override nothing.
    pub open spec fn none() -> Self {
        CdtConfigOverrides {
            dimension: None,
            vertices: None,
            timeslices: None,
            temperature: None,
            steps: None,
            thermalization_steps: None,
            measurement_frequency: None,
            coupling_0: None,
            coupling_2: None,
            cosmological_constant: None,
            simulate: None,
        }
    }
}

/// The value of a field after merging: the override where there is one,
/// the field itself where there is none.
pub open spec fn overridden<T>(field: T, replacement: Option<T>) -> T {
    match replacement {
        Some(value) => value,
        None => field,
    }
}

/// The dimension after merging.
pub open spec fn overridden_dimension(field: Option<u8>, replacement: Option<DimensionOverride>)
    -> Option<u8> {
    match replacement {
        Some(DimensionOverride::Value(value)) => Some(value),
        Some(DimensionOverride::Clear) => None,
        None => field,
    }
}

/// The temperature is not positive: it is not greater than zero. A
/// temperature that does not compare with zero at all is not positive.
pub open spec fn temperature_rejected<S: Scalar>(temperature: S) -> bool {
    !temperature.is_gt(&whole::<S>(0))
}

/// The configuration with the documented defaults around two given counts.
pub open spec fn standard_config<S: Scalar>(vertices: u32, timeslices: u32) -> CdtConfig<S> {
    CdtConfig {
        dimension: Some(2u8),
        vertices,
        timeslices,
        temperature: whole::<S>(1),
        steps: 1000,
        thermalization_steps: 100,
        measurement_frequency: 10,
        coupling_0: whole::<S>(1),
        coupling_2: whole::<S>(1),
        cosmological_constant: whole::<S>(1).div_spec(whole::<S>(10)),
        simulate: true,
    }
}

impl<S: Scalar> CdtConfig<S> {
    /// This configuration merged with `overrides`.
    pub open spec fn merged_with(&self, overrides: &CdtConfigOverrides<S>) -> CdtConfig<S> {
        CdtConfig {
            dimension: overridden_dimension(self.dimension, overrides.dimension),
            vertices: overridden(self.vertices, overrides.vertices),
            timeslices: overridden(self.timeslices, overrides.timeslices),
            temperature: overridden(self.temperature, overrides.temperature),
            steps: overridden(self.steps, overrides.steps),
            thermalization_steps: overridden(
                self.thermalization_steps,
                overrides.thermalization_steps,
            ),
            measurement_frequency: overridden(
                self.measurement_frequency,
                overrides.measurement_frequency,
            ),
            coupling_0: overridden(self.coupling_0, overrides.coupling_0),
            coupling_2: overridden(self.coupling_2, overrides.coupling_2),
            cosmological_constant: overridden(
                self.cosmological_constant,
                overrides.cosmological_constant,
            ),
            simulate: overridden(self.simulate, overrides.simulate),
        }
    }

    /// Merges this configuration with a set of override values, returning
    /// the new configuration. An override that is `None` leaves its field
    /// as it is.
    pub fn merge_with_override(&self, overrides: &CdtConfigOverrides<S>) -> (merged: Self)
        ensures
            merged == self.merged_with(overrides),
    {
        let mut merged = *self;
        if let Some(dimension_override) = overrides.dimension {
            match dimension_override {
                DimensionOverride::Value(value) => {
                    merged.dimension = Some(value);
                },
                DimensionOverride::Clear => {
                    merged.dimension = None;
                },
            }
        }
        if let Some(vertices) = overrides.vertices {
            merged.vertices = vertices;
        }
        if let Some(timeslices) = overrides.timeslices {
            merged.timeslices = timeslices;
        }
        if let Some(temperature) = overrides.temperature {
            merged.temperature = temperature;
        }
        if let Some(steps) = overrides.steps {
            merged.steps = steps;
        }
        if let Some(thermalization_steps) = overrides.thermalization_steps {
            merged.thermalization_steps = thermalization_steps;
        }
        if let Some(measurement_frequency) = overrides.measurement_frequency {
            merged.measurement_frequency = measurement_frequency;
        }
        if let Some(coupling_0) = overrides.coupling_0 {
            merged.coupling_0 = coupling_0;
        }
        if let Some(coupling_2) = overrides.coupling_2 {
            merged.coupling_2 = coupling_2;
        }
        if let Some(cosmological_constant) = overrides.cosmological_constant {
            merged.cosmological_constant = cosmological_constant;
        }
        if let Some(simulate) = overrides.simulate {
            merged.simulate = simulate;
        }
        merged
    }

    /// Creates a configuration with the given counts and the defaults for
    /// everything else: dimension 2, temperature 1, 1000 steps of which 100
    /// thermalize, a measurement every 10 steps, both couplings 1, the
    /// cosmological constant 1/10, and the simulation switched on.
    pub fn new(vertices: u32, timeslices: u32) -> (config: Self)
        requires
            arithmetic_total::<S>(),
        ensures
            config.dimension == Some(2u8),
            config.vertices == vertices,
            config.timeslices == timeslices,
            config.steps == 1000,
            config.thermalization_steps == 100,
            config.measurement_frequency == 10,
            config.simulate,
            arithmetic_specified::<S>() ==> config == standard_config::<S>(vertices, timeslices),
    {
        Self::preset(vertices, timeslices, 1000, 100, 10)
    }

    /// A configuration with the default real-valued parameters around the
    /// given counts.
    fn preset(
        vertices: u32,
        timeslices: u32,
        steps: u32,
        thermalization_steps: u32,
        measurement_frequency: u32,
    ) -> (config: Self)
        requires
            arithmetic_total::<S>(),
        ensures
            config.dimension == Some(2u8),
            config.vertices == vertices,
            config.timeslices == timeslices,
            config.steps == steps,
            config.thermalization_steps == thermalization_steps,
            config.measurement_frequency == measurement_frequency,
            config.simulate,
            arithmetic_specified::<S>() ==> config == (CdtConfig {
                steps,
                thermalization_steps,
                measurement_frequency,
                ..standard_config::<S>(vertices, timeslices)
            }),
    {
        let one: S = scalar_of(1);
        let ten: S = scalar_of(10);
        Self {
            dimension: Some(2),
            vertices,
            timeslices,
            temperature: one,
            steps,
            thermalization_steps,
            measurement_frequency,
            coupling_0: scalar_of(1),
            coupling_2: scalar_of(1),
            cosmological_constant: one / ten,
            simulate: true,
        }
    }

    /// The Metropolis configuration of this configuration.
    pub open spec fn to_metropolis_config_spec(&self) -> MetropolisConfig<S> {
        MetropolisConfig {
            temperature: self.temperature,
            steps: self.steps,
            thermalization_steps: self.thermalization_steps,
            measurement_frequency: self.measurement_frequency,
        }
    }

    /// The action configuration of this configuration.
    pub open spec fn to_action_config_spec(&self) -> ActionConfig<S> {
        ActionConfig {
            coupling_0: self.coupling_0,
            coupling_2: self.coupling_2,
            cosmological_constant: self.cosmological_constant,
        }
    }

    /// Creates the Metropolis configuration of this configuration.
    pub fn to_metropolis_config(&self) -> (config: MetropolisConfig<S>)
        ensures
            config == self.to_metropolis_config_spec(),
    {
        MetropolisConfig::new(
            self.temperature,
            self.steps,
            self.thermalization_steps,
            self.measurement_frequency,
        )
    }

    /// Creates the action configuration of this configuration.
    pub fn to_action_config(&self) -> (config: ActionConfig<S>)
        ensures
            config == self.to_action_config_spec(),
    {
        ActionConfig::new(self.coupling_0, self.coupling_2, self.cosmological_constant)
    }

    /// The dimension in effect: the one given, or 2.
    pub open spec fn effective_dimension(&self) -> u8 {
        match self.dimension {
            Some(d) => d,
            None => 2,
        }
    }

    /// Gets the effective dimension (2 where none is given).
    pub fn dimension(&self) -> (dimension: u8)
        ensures
            dimension == self.effective_dimension(),
    {
        match self.dimension {
            Some(d) => d,
            None => 2,
        }
    }

    /// What validation owes to this configuration, given whether the
    /// temperature was found not to be positive. The rules are looked at in
    /// this order, and the first one broken decides: at least 3 vertices; at
    /// least 1 timeslice; dimension 2 where one is given; a positive
    /// temperature; at least 1 step; a measurement frequency of at least 1
    /// and at most the number of steps; no more thermalization steps than
    /// steps.
    pub open spec fn validation_outcome(
        &self,
        temperature_not_positive: bool,
        result: Result<(), CdtError>,
    ) -> bool {
        if self.vertices < 3 {
            result matches Err(CdtError::InvalidParameters(msg)) && msg@
                == "Number of vertices must be at least 3"@
        } else if self.timeslices == 0 {
            result matches Err(CdtError::InvalidParameters(msg)) && msg@
                == "Number of timeslices must be at least 1"@
        } else if self.dimension is Some && self.dimension->Some_0 != 2 {
            result == Err::<(), CdtError>(
                CdtError::UnsupportedDimension(self.dimension->Some_0 as u32),
            )
        } else if temperature_not_positive {
            result matches Err(CdtError::InvalidParameters(msg)) && msg@
                == "Temperature must be positive"@
        } else if self.steps == 0 {
            result matches Err(CdtError::InvalidParameters(msg)) && msg@
                == "Number of steps must be positive"@
        } else if self.measurement_frequency == 0 {
            result matches Err(CdtError::InvalidParameters(msg)) && msg@
                == "Measurement frequency must be positive"@
        } else if self.measurement_frequency > self.steps {
            result matches Err(CdtError::InvalidParameters(msg)) && msg@
                == "Measurement frequency cannot be greater than total steps"@
        } else if self.thermalization_steps > self.steps {
            result matches Err(CdtError::InvalidParameters(msg)) && msg@
                == "Thermalization steps cannot exceed total steps"@
        } else {
            result is Ok
        }
    }

    /// Validates the configuration against its rules, where it is already
    /// known whether the temperature is positive.
    pub fn validate_with(&self, temperature_not_positive: bool) -> (result: Result<(), CdtError>)
        ensures
            self.validation_outcome(temperature_not_positive, result),
    {
        if self.vertices < 3 {
            return Err(
                CdtError::InvalidParameters(
                    String::from_str("Number of vertices must be at least 3"),
                ),
            );
        }
        if self.timeslices == 0 {
            return Err(
                CdtError::InvalidParameters(
                    String::from_str("Number of timeslices must be at least 1"),
                ),
            );
        }
        if let Some(dim) = self.dimension {
            if dim != 2 {
                return Err(CdtError::UnsupportedDimension(dim as u32));
            }
        }
        if temperature_not_positive {
            return Err(
                CdtError::InvalidParameters(String::from_str("Temperature must be positive")),
            );
        }
        if self.steps == 0 {
            return Err(
                CdtError::InvalidParameters(String::from_str("Number of steps must be positive")),
            );
        }
        if self.measurement_frequency == 0 {
            return Err(
                CdtError::InvalidParameters(
                    String::from_str("Measurement frequency must be positive"),
                ),
            );
        }
        if self.measurement_frequency > self.steps {
            return Err(
                CdtError::InvalidParameters(
                    String::from_str("Measurement frequency cannot be greater than total steps"),
                ),
            );
        }
        if self.thermalization_steps > self.steps {
            return Err(
                CdtError::InvalidParameters(
                    String::from_str("Thermalization steps cannot exceed total steps"),
                ),
            );
        }
        Ok(())
    }

    /// Validates the configuration parameters. The temperature counts as
    /// positive only where it compares as greater than zero.
    pub fn validate(&self) -> (result: Result<(), CdtError>)
        ensures
            exists|temperature_not_positive: bool| #[trigger]
                self.validation_outcome(temperature_not_positive, result),
            comparison_specified::<S>() && arithmetic_specified::<S>()
                ==> self.validation_outcome(temperature_rejected(self.temperature), result),
    {
        let zero: S = scalar_of(0);
        let temperature_not_positive = !(self.temperature > zero);
        self.validate_with(temperature_not_positive)
    }
}

/// Configuration presets for quick testing.
#[derive(Debug, Clone)]
pub struct TestConfig;

impl TestConfig {
    /// A small, fast configuration: 16 vertices, 2 timeslices, 10 steps of
    /// which 2 thermalize, a measurement every 2 steps.
    pub fn small<S: Scalar>() -> (config: CdtConfig<S>)
        requires
            arithmetic_total::<S>(),
        ensures
            arithmetic_specified::<S>() ==> config == (CdtConfig {
                steps: 10,
                thermalization_steps: 2,
                measurement_frequency: 2,
                ..standard_config::<S>(16, 2)
            }),
            config.vertices == 16,
            config.timeslices == 2,
            config.steps == 10,
            config.thermalization_steps == 2,
            config.measurement_frequency == 2,
            config.dimension == Some(2u8),
    {
        CdtConfig::preset(16, 2, 10, 2, 2)
    }

    /// A medium-sized configuration: 64 vertices, 4 timeslices, 100 steps
    /// of which 20 thermalize, a measurement every 5 steps.
    pub fn medium<S: Scalar>() -> (config: CdtConfig<S>)
        requires
            arithmetic_total::<S>(),
        ensures
            arithmetic_specified::<S>() ==> config == (CdtConfig {
                steps: 100,
                thermalization_steps: 20,
                measurement_frequency: 5,
                ..standard_config::<S>(64, 4)
            }),
            config.vertices == 64,
            config.timeslices == 4,
            config.steps == 100,
            config.thermalization_steps == 20,
            config.measurement_frequency == 5,
            config.dimension == Some(2u8),
    {
        CdtConfig::preset(64, 4, 100, 20, 5)
    }

    /// A large configuration: 256 vertices, 8 timeslices, 1000 steps of
    /// which 100 thermalize, a measurement every 10 steps.
    pub fn large<S: Scalar>() -> (config: CdtConfig<S>)
        requires
            arithmetic_total::<S>(),
        ensures
            arithmetic_specified::<S>() ==> config == (CdtConfig {
                steps: 1000,
                thermalization_steps: 100,
                measurement_frequency: 10,
                ..standard_config::<S>(256, 8)
            }),
            config.vertices == 256,
            config.timeslices == 8,
            config.steps == 1000,
            config.thermalization_steps == 100,
            config.measurement_frequency == 10,
            config.dimension == Some(2u8),
    {
        CdtConfig::preset(256, 8, 1000, 100, 10)
    }
}

/// One component of a path.
#[derive(Debug, Clone, PartialEq, Eq)]
pub enum PathComponent {
    /// A prefix, such as a drive letter.
    Prefix(String),
    /// The root directory.
    RootDir,
    /// The current directory, `.`.
    CurDir,
    /// The parent directory, `..`.
    ParentDir,
    /// A named segment.
    Normal(String),
}

/// The components that stand after one more component has been taken in:
/// the current directory changes nothing; the parent directory takes the
/// last named segment away, if the last component is one; anything else is
/// added at the end.
pub open spec fn normalize_step(normalized: Seq<PathComponent>, component: PathComponent) -> Seq<
    PathComponent,
> {
    match component {
        PathComponent::CurDir => normalized,
        PathComponent::ParentDir => if normalized.len() > 0 && normalized.last() is Normal {
            normalized.drop_last()
        } else {
            normalized
        },
        _ => normalized.push(component),
    }
}

/// The components taken in one after the other, from none.
pub open spec fn normalize_fold(components: Seq<PathComponent>) -> Seq<PathComponent>
    decreases components.len(),
{
    if components.len() == 0 {
        Seq::empty()
    } else {
        normalize_step(normalize_fold(components.drop_last()), components.last())
    }
}

/// The normal form of a path: its components taken in one after the other,
/// and the current directory where nothing is left.
pub open spec fn normalized_path(components: Seq<PathComponent>) -> Seq<PathComponent> {
    if normalize_fold(components).len() == 0 {
        seq![PathComponent::CurDir]
    } else {
        normalize_fold(components)
    }
}

/// Normalizes the components of a path: `.` segments are dropped, and each
/// `..` segment takes the named segment before it away. A `..` that has no
/// named segment before it is dropped, so that no path leaves its root. An
/// empty result stands for the current directory.
pub fn normalize_components(components: &Vec<PathComponent>) -> (normalized: Vec<PathComponent>)
    ensures
        normalized@ == normalized_path(components@),
{
    let mut normalized: Vec<PathComponent> = Vec::new();
    let mut i: usize = 0;
    while i < components.len()
        invariant
            i <= components@.len(),
            normalized@ == normalize_fold(components@.take(i as int)),
        decreases components@.len() - i,
    {
        proof {
            assert(components@.take(i + 1).drop_last() =~= components@.take(i as int));
            assert(components@.take(i + 1).last() == components@[i as int]);
        }
        let ghost before = normalized@;
        match &components[i] {
            PathComponent::CurDir => {},
            PathComponent::ParentDir => {
                let count = normalized.len();
                let named = count > 0 && match &normalized[count - 1] {
                    PathComponent::Normal(_) => true,
                    _ => false,
                };
                if named {
                    normalized.pop();
                    assert(normalized@ =~= before.drop_last());
                }
            },
            PathComponent::RootDir => {
                normalized.push(PathComponent::RootDir);
            },
            PathComponent::Prefix(prefix) => {
                normalized.push(PathComponent::Prefix(prefix.clone()));
            },
            PathComponent::Normal(segment) => {
                normalized.push(PathComponent::Normal(segment.clone()));
            },
        }
        i = i + 1;
    }
    proof {
        assert(components@.take(components@.len() as int) =~= components@);
    }
    if normalized.len() == 0 {
        normalized.push(PathComponent::CurDir);
    }
    normalized
}

} // verus!
