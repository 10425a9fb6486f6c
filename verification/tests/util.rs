use causal_dynamical_triangulations::errors::CdtError;
use causal_dynamical_triangulations::text::{decimal_string, signed_decimal_string};
use causal_dynamical_triangulations::util::{
    check_generation_parameters, generate_random_float, generation_failure,
    validate_generation_parameters,
};

#[test]
fn test_generate_random_float() {
    let result: f64 = generate_random_float();
    assert!(result >= 0.0, "Random float should be >= 0.0");
    assert!(result < 1.0, "Random float should be < 1.0");
}

#[test]
fn test_generate_random_float_multiple_calls() {
    let results: Vec<f64> = (0..10).map(|_| generate_random_float()).collect();
    for result in &results {
        assert!(
            (&0.0..&1.0).contains(&result),
            "Random float {result} out of range"
        );
    }
    let first = results[0];
    let all_same = results.iter().all(|&x| (x - first).abs() < f64::EPSILON);
    assert!(!all_same, "All random values should not be identical");
}

#[test]
fn test_generate_delaunay2_with_context_insufficient_vertices() {
    let result = validate_generation_parameters(2, (0.0, 10.0));
    assert!(result.is_err(), "Should fail with insufficient vertices");
    match result.unwrap_err() {
        CdtError::InvalidGenerationParameters {
            issue,
            provided_value,
            expected_range,
        } => {
            assert_eq!(issue, "Insufficient vertex count");
            assert_eq!(provided_value, "2");
            assert_eq!(expected_range, "≥ 3");
        }
        _ => panic!("Expected InvalidGenerationParameters error"),
    }
}

#[test]
fn test_generate_delaunay2_with_context_invalid_coordinate_range() {
    let result = validate_generation_parameters(4, (10.0, 5.0));
    assert!(result.is_err(), "Should fail with invalid coordinate range");
    match result.unwrap_err() {
        CdtError::InvalidGenerationParameters {
            issue,
            provided_value,
            expected_range,
        } => {
            assert_eq!(issue, "Invalid coordinate range");
            assert_eq!(provided_value, "[10, 5]");
            assert_eq!(expected_range, "min < max");
        }
        _ => panic!("Expected InvalidGenerationParameters error"),
    }
}

#[test]
fn test_generate_delaunay2_with_context_equal_coordinate_range() {
    let result = validate_generation_parameters(4, (5.0, 5.0));
    assert!(result.is_err(), "Should fail with equal coordinate range");
    match result.unwrap_err() {
        CdtError::InvalidGenerationParameters { issue, .. } => {
            assert_eq!(issue, "Invalid coordinate range");
        }
        _ => panic!("Expected InvalidGenerationParameters error"),
    }
}

#[test]
fn generation_parameters_that_pass() {
    assert_eq!(validate_generation_parameters(3, (0.0, 10.0)), Ok(()));
    assert_eq!(validate_generation_parameters(4, (-50.0, 0.0)), Ok(()));
    assert_eq!(validate_generation_parameters(u32::MAX, (0.001, 0.002)), Ok(()));
    // The vertex count is looked at before the range.
    match validate_generation_parameters(0, (3.0, 1.0)) {
        Err(CdtError::InvalidGenerationParameters { issue, provided_value, .. }) => {
            assert_eq!(issue, "Insufficient vertex count");
            assert_eq!(provided_value, "0");
        }
        other => panic!("unexpected {other:?}"),
    }
    assert_eq!(check_generation_parameters(3, false, "a", "b"), Ok(()));
    match check_generation_parameters(3, true, "a", "b") {
        Err(CdtError::InvalidGenerationParameters { provided_value, .. }) => {
            assert_eq!(provided_value, "[a, b]");
        }
        other => panic!("unexpected {other:?}"),
    }
}

#[test]
fn generation_failure_carries_its_context() {
    let error = generation_failure(7, (-1.0, 1.0), "degenerate".to_string());
    assert_eq!(
        error.to_string(),
        "Delaunay triangulation generation failed: 7 vertices, range [-1, 1], attempt 1: degenerate"
    );
}

#[test]
fn decimal_rendering() {
    assert_eq!(decimal_string(0), "0");
    assert_eq!(decimal_string(9), "9");
    assert_eq!(decimal_string(10), "10");
    assert_eq!(decimal_string(1234567890), "1234567890");
    assert_eq!(decimal_string(u64::MAX), "18446744073709551615");
    assert_eq!(signed_decimal_string(0), "0");
    assert_eq!(signed_decimal_string(-1), "-1");
    assert_eq!(signed_decimal_string(42), "42");
    assert_eq!(signed_decimal_string(-2147483648), "-2147483648");
    assert_eq!(signed_decimal_string(i64::MIN), "-9223372036854775808");
    assert_eq!(signed_decimal_string(i64::MAX), "9223372036854775807");
}
