use causal_dynamical_triangulations::config::{
    normalize_components, CdtConfig, CdtConfigOverrides, DimensionOverride, PathComponent,
    TestConfig,
};
use causal_dynamical_triangulations::errors::CdtError;

fn nearly(a: f64, b: f64) -> bool {
    (a - b).abs() <= 1e-12
}

#[test]
fn test_config_new() {
    let config = CdtConfig::<f64>::new(32, 3);
    assert_eq!(config.vertices, 32);
    assert_eq!(config.timeslices, 3);
    assert_eq!(config.dimension(), 2);
    assert!(config.simulate);
}

#[test]
fn config_test_config_conversions() {
    let config = CdtConfig::<f64>::new(64, 4);

    let metropolis_config = config.to_metropolis_config();
    assert!(nearly(metropolis_config.temperature, 1.0));
    assert_eq!(metropolis_config.steps, 1000);

    let action_config = config.to_action_config();
    assert!(nearly(action_config.coupling_0, 1.0));
    assert!(nearly(action_config.coupling_2, 1.0));
    assert!(nearly(action_config.cosmological_constant, 0.1));
}

#[test]
fn lib_test_config_conversions() {
    let config = CdtConfig::<f64> {
        dimension: Some(2),
        vertices: 32,
        timeslices: 3,
        temperature: 1.0,
        steps: 10,
        thermalization_steps: 5,
        measurement_frequency: 2,
        coupling_0: 1.0,
        coupling_2: 1.0,
        cosmological_constant: 0.1,
        simulate: false,
    };

    let metropolis_config = config.to_metropolis_config();
    assert!(nearly(metropolis_config.temperature, 1.0));
    assert_eq!(metropolis_config.steps, 10);

    let action_config = config.to_action_config();
    assert!(nearly(action_config.coupling_0, 1.0));
    assert!(nearly(action_config.coupling_2, 1.0));
    assert!(nearly(action_config.cosmological_constant, 0.1));
}

#[test]
fn test_config_validation() {
    let valid_config = CdtConfig::<f64>::new(32, 3);
    assert!(valid_config.validate().is_ok());

    let invalid_vertices = CdtConfig::<f64> {
        vertices: 2,
        ..CdtConfig::new(32, 3)
    };
    assert!(invalid_vertices.validate().is_err());

    let invalid_timeslices = CdtConfig::<f64> {
        timeslices: 0,
        ..CdtConfig::new(32, 3)
    };
    assert!(invalid_timeslices.validate().is_err());

    let invalid_temperature = CdtConfig::<f64> {
        temperature: -1.0,
        ..CdtConfig::new(32, 3)
    };
    assert!(invalid_temperature.validate().is_err());

    let invalid_measurement_frequency = CdtConfig::<f64> {
        measurement_frequency: 0,
        ..CdtConfig::new(32, 3)
    };
    assert!(invalid_measurement_frequency.validate().is_err());

    let invalid_steps = CdtConfig::<f64> {
        steps: 0,
        ..CdtConfig::new(32, 3)
    };
    assert!(invalid_steps.validate().is_err());

    let invalid_dimension = CdtConfig::<f64> {
        dimension: Some(4),
        ..CdtConfig::new(32, 3)
    };
    let error = invalid_dimension.validate().unwrap_err().to_string();
    assert!(
        error.contains("Unsupported dimension"),
        "unexpected validation error: {error}"
    );

    let measurement_frequency_exceeds_steps = CdtConfig::<f64> {
        measurement_frequency: 2_000,
        ..CdtConfig::new(32, 3)
    };
    assert!(measurement_frequency_exceeds_steps.validate().is_err());
}

#[test]
fn test_dimension_defaults_to_two_when_unspecified() {
    let config = CdtConfig::<f64> {
        dimension: None,
        ..CdtConfig::new(32, 3)
    };
    assert_eq!(config.dimension(), 2);
}

#[test]
fn test_preset_configs() {
    let small = TestConfig::small::<f64>();
    assert!(small.validate().is_ok());
    assert_eq!(small.vertices, 16);
    assert_eq!(small.steps, 10);

    let medium = TestConfig::medium::<f64>();
    assert!(medium.validate().is_ok());
    assert_eq!(medium.vertices, 64);
    assert_eq!(medium.steps, 100);

    let large = TestConfig::large::<f64>();
    assert!(large.validate().is_ok());
    assert_eq!(large.vertices, 256);
    assert_eq!(large.steps, 1000);
}

#[test]
fn test_merge_with_override_updates_specified_fields() {
    let base = CdtConfig::<f64>::new(10, 2);
    let overrides = CdtConfigOverrides {
        dimension: Some(DimensionOverride::Value(3)),
        vertices: Some(42),
        temperature: Some(2.5),
        simulate: Some(false),
        ..CdtConfigOverrides::default()
    };

    let merged = base.merge_with_override(&overrides);

    assert_eq!(merged.dimension(), 3);
    assert_eq!(merged.vertices, 42);
    assert!(nearly(merged.temperature, 2.5));
    assert!(!merged.simulate);

    // Unspecified fields should remain unchanged.
    assert_eq!(merged.timeslices, base.timeslices);
    assert_eq!(merged.steps, base.steps);
}

#[test]
fn test_merge_with_override_can_clear_dimension() {
    let base = CdtConfig::<f64>::new(10, 2);
    let overrides = CdtConfigOverrides {
        dimension: Some(DimensionOverride::Clear),
        ..CdtConfigOverrides::default()
    };

    let merged = base.merge_with_override(&overrides);
    assert_eq!(merged.dimension, None);
    assert_eq!(merged.dimension(), 2); // dimension() defaults to 2 when None
}

#[test]
fn merge_with_every_override() {
    let base = CdtConfig::<f64>::new(10, 2);
    let overrides = CdtConfigOverrides {
        dimension: Some(DimensionOverride::Value(2)),
        vertices: Some(11),
        timeslices: Some(12),
        temperature: Some(13.0),
        steps: Some(14),
        thermalization_steps: Some(15),
        measurement_frequency: Some(16),
        coupling_0: Some(17.0),
        coupling_2: Some(18.0),
        cosmological_constant: Some(19.0),
        simulate: Some(false),
    };
    let merged = base.merge_with_override(&overrides);
    assert_eq!(merged.dimension, Some(2));
    assert_eq!(merged.vertices, 11);
    assert_eq!(merged.timeslices, 12);
    assert_eq!(merged.temperature, 13.0);
    assert_eq!(merged.steps, 14);
    assert_eq!(merged.thermalization_steps, 15);
    assert_eq!(merged.measurement_frequency, 16);
    assert_eq!(merged.coupling_0, 17.0);
    assert_eq!(merged.coupling_2, 18.0);
    assert_eq!(merged.cosmological_constant, 19.0);
    assert!(!merged.simulate);

    let untouched = base.merge_with_override(&CdtConfigOverrides::default());
    assert_eq!(untouched.vertices, 10);
    assert_eq!(untouched.timeslices, 2);
    assert_eq!(untouched.temperature, 1.0);
    assert_eq!(untouched.steps, 1000);
    assert_eq!(untouched.thermalization_steps, 100);
    assert_eq!(untouched.measurement_frequency, 10);
    assert_eq!(untouched.cosmological_constant, 0.1);
    assert!(untouched.simulate);
}

#[test]
fn validation_names_the_first_broken_rule() {
    let base = CdtConfig::<f64>::new(32, 3);
    let expect = |config: CdtConfig<f64>, message: &str| match config.validate() {
        Err(CdtError::InvalidParameters(text)) => assert_eq!(text, message),
        other => panic!("expected InvalidParameters({message}), got {other:?}"),
    };
    expect(
        CdtConfig { vertices: 2, ..base },
        "Number of vertices must be at least 3",
    );
    expect(
        CdtConfig { timeslices: 0, ..base },
        "Number of timeslices must be at least 1",
    );
    expect(
        CdtConfig { temperature: 0.0, ..base },
        "Temperature must be positive",
    );
    expect(
        CdtConfig { temperature: -0.5, ..base },
        "Temperature must be positive",
    );
    expect(
        CdtConfig { steps: 0, ..base },
        "Number of steps must be positive",
    );
    expect(
        CdtConfig { measurement_frequency: 0, ..base },
        "Measurement frequency must be positive",
    );
    expect(
        CdtConfig { measurement_frequency: 1001, ..base },
        "Measurement frequency cannot be greater than total steps",
    );
    expect(
        CdtConfig { thermalization_steps: 1001, ..base },
        "Thermalization steps cannot exceed total steps",
    );
    // The first broken rule decides.
    expect(
        CdtConfig { vertices: 0, timeslices: 0, steps: 0, ..base },
        "Number of vertices must be at least 3",
    );
    // The limits themselves are accepted.
    assert!(CdtConfig { vertices: 3, timeslices: 1, ..base }.validate().is_ok());
    assert!(CdtConfig { measurement_frequency: 1000, thermalization_steps: 1000, ..base }
        .validate()
        .is_ok());
    assert!(CdtConfig { dimension: None, ..base }.validate().is_ok());
}

#[test]
fn config_validation_scenario() {
    let base = CdtConfig::<f64>::new(32, 3);
    assert!(matches!(
        CdtConfig { vertices: 2, ..base }.validate(),
        Err(CdtError::InvalidParameters(_))
    ));
    assert_eq!(
        CdtConfig { dimension: Some(3), ..base }.validate(),
        Err(CdtError::UnsupportedDimension(3))
    );
    assert!(matches!(
        CdtConfig { measurement_frequency: base.steps + 1, ..base }.validate(),
        Err(CdtError::InvalidParameters(_))
    ));
}

#[test]
fn validation_with_a_known_temperature_verdict() {
    let base = CdtConfig::<f64>::new(32, 3);
    assert!(base.validate_with(false).is_ok());
    assert_eq!(
        base.validate_with(true),
        Err(CdtError::InvalidParameters("Temperature must be positive".to_string()))
    );
    assert_eq!(
        CdtConfig { dimension: Some(7), ..base }.validate_with(true),
        Err(CdtError::UnsupportedDimension(7))
    );
}


fn parts(path: &str) -> Vec<PathComponent> {
    let mut components = Vec::new();
    if path.starts_with('/') {
        components.push(PathComponent::RootDir);
    }
    for segment in path.split('/').filter(|segment| !segment.is_empty()) {
        components.push(match segment {
            "." => PathComponent::CurDir,
            ".." => PathComponent::ParentDir,
            name => PathComponent::Normal(name.to_string()),
        });
    }
    components
}

#[test]
fn test_resolve_path_with_absolute_path() {
    assert_eq!(normalize_components(&parts("/tmp/example")), parts("/tmp/example"));
}

#[test]
fn test_resolve_path_with_relative_path() {
    assert_eq!(
        normalize_components(&parts("/tmp/base/config/settings.toml")),
        parts("/tmp/base/config/settings.toml")
    );
}

#[test]
fn test_resolve_path_normalizes_navigation_components() {
    assert_eq!(
        normalize_components(&parts("/tmp/base/configs/../settings.toml")),
        parts("/tmp/base/settings.toml")
    );
}

#[test]
fn test_resolve_path_cannot_escape_root() {
    assert_eq!(normalize_components(&parts("/../etc/passwd")), parts("/etc/passwd"));
}

#[test]
fn normalization_edge_cases() {
    assert_eq!(normalize_components(&Vec::new()), vec![PathComponent::CurDir]);
    assert_eq!(normalize_components(&parts("./.")), vec![PathComponent::CurDir]);
    assert_eq!(normalize_components(&parts("a/..")), vec![PathComponent::CurDir]);
    assert_eq!(normalize_components(&parts("../a")), parts("a"));
    assert_eq!(normalize_components(&parts("a/../../b/./c/..")), parts("b"));
    assert_eq!(normalize_components(&parts("/")), parts("/"));
    assert_eq!(normalize_components(&parts("/..")), parts("/"));
    assert_eq!(normalize_components(&parts("/a/b/../../..")), parts("/"));
    let drive = vec![
        PathComponent::Prefix("C:".to_string()),
        PathComponent::RootDir,
        PathComponent::ParentDir,
        PathComponent::Normal("x".to_string()),
    ];
    assert_eq!(
        normalize_components(&drive),
        vec![
            PathComponent::Prefix("C:".to_string()),
            PathComponent::RootDir,
            PathComponent::Normal("x".to_string()),
        ]
    );
    assert_eq!(
        normalize_components(&vec![PathComponent::Prefix("C:".to_string()), PathComponent::ParentDir]),
        vec![PathComponent::Prefix("C:".to_string())]
    );
}

#[test]
fn temperature_must_be_greater_than_zero() {
    let base = CdtConfig::<f64>::new(32, 3);
    let rejected = Err(CdtError::InvalidParameters("Temperature must be positive".to_string()));
    assert_eq!(CdtConfig { temperature: f64::NAN, ..base }.validate(), rejected);
    assert_eq!(CdtConfig { temperature: -0.0, ..base }.validate(), rejected);
    assert_eq!(CdtConfig { temperature: f64::NEG_INFINITY, ..base }.validate(), rejected);
    assert_eq!(CdtConfig { temperature: f64::MIN_POSITIVE, ..base }.validate(), Ok(()));
    assert_eq!(CdtConfig { temperature: f64::INFINITY, ..base }.validate(), Ok(()));
}
