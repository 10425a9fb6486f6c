//! Random numbers and the parameter rules of triangulation generation.

use crate::errors::{CdtError, CdtResult, CoordinateRange};
use crate::text::{decimal, decimal_string};
use vstd::prelude::*;
use vstd::std_specs::cmp::{PartialOrdIs, PartialOrdSpec};
use vstd::string::{to_string_from_display_ensures, StringExecFns};

verus! {

/// Draws from `rand::random`: a value of the standard uniform distribution
/// of `S`, which for floating point is the half-open unit interval. The
/// outcome is random, so nothing is claimed of it.
#[verifier::external_body]
pub fn generate_random_float<S>() -> (draw: S) where
    rand::distr::StandardUniform: rand::distr::Distribution<S>,
 {
    rand::random::<S>()
}

/// The text of a coordinate range: both bounds in square brackets.
pub open spec fn range_text(min: Seq<char>, max: Seq<char>) -> Seq<char> {
    "["@ + min + ", "@ + max + "]"@
}

/// The outcome that a generation request owes to its vertex count and its
/// coordinate range, where `degenerate` says whether the lower bound was
/// found not to lie below the upper one, and `min` and `max` are the two
/// bounds as text: the vertex count is looked at first, then the range.
pub open spec fn generation_parameters_outcome(
    number_of_vertices: u32,
    degenerate: bool,
    min: Seq<char>,
    max: Seq<char>,
    result: CdtResult<()>,
) -> bool {
    if number_of_vertices < 3 {
        result matches Err(
            CdtError::InvalidGenerationParameters { issue, provided_value, expected_range },
        ) && issue@ == "Insufficient vertex count"@ && provided_value@ == decimal(
            number_of_vertices as nat,
        ) && expected_range@ == "\u{2265} 3"@
    } else if degenerate {
        result matches Err(
            CdtError::InvalidGenerationParameters { issue, provided_value, expected_range },
        ) && issue@ == "Invalid coordinate range"@ && provided_value@ == range_text(min, max)
            && expected_range@ == "min < max"@
    } else {
        result is Ok
    }
}

/// Judges the parameters of a generation request on what is known of
/// them: the vertex count, whether the range is degenerate, and the two
/// bounds as text.
pub fn check_generation_parameters(
    number_of_vertices: u32,
    degenerate: bool,
    min: &str,
    max: &str,
) -> (result: CdtResult<()>)
    ensures
        generation_parameters_outcome(number_of_vertices, degenerate, min@, max@, result),
{
    if number_of_vertices < 3 {
        return Err(
            CdtError::InvalidGenerationParameters {
                issue: String::from_str("Insufficient vertex count"),
                provided_value: decimal_string(number_of_vertices as u64),
                expected_range: String::from_str("\u{2265} 3"),
            },
        );
    }
    if degenerate {
        let mut provided_value = String::from_str("[");
        provided_value.append(min);
        provided_value.append(", ");
        provided_value.append(max);
        provided_value.append("]");
        return Err(
            CdtError::InvalidGenerationParameters {
                issue: String::from_str("Invalid coordinate range"),
                provided_value,
                expected_range: String::from_str("min < max"),
            },
        );
    }
    Ok(())
}

/// The range is degenerate: its lower bound does not lie below its upper
/// bound.
pub open spec fn range_degenerate<S: PartialOrd>(coordinate_range: (S, S)) -> bool {
    coordinate_range.0.is_ge(&coordinate_range.1)
}

/// Validates the parameters of a generation request before anything is
/// generated: at least three vertices, and a range whose lower bound lies
/// below its upper bound. The bounds appear in the error as their
/// `Display` renders them.
pub fn validate_generation_parameters<S: Copy + PartialOrd + core::fmt::Display>(
    number_of_vertices: u32,
    coordinate_range: (S, S),
) -> (result: CdtResult<()>)
    ensures
        exists|degenerate: bool, min: String, max: String|
            to_string_from_display_ensures::<S>(&coordinate_range.0, min)
                && to_string_from_display_ensures::<S>(&coordinate_range.1, max)
                && #[trigger] generation_parameters_outcome(
                number_of_vertices,
                degenerate,
                min@,
                max@,
                result,
            ),
        number_of_vertices < 3 ==> result is Err,
        S::obeys_partial_cmp_spec() ==> exists|min: String, max: String|
            to_string_from_display_ensures::<S>(&coordinate_range.0, min)
                && to_string_from_display_ensures::<S>(&coordinate_range.1, max)
                && #[trigger] generation_parameters_outcome(
                number_of_vertices,
                range_degenerate(coordinate_range),
                min@,
                max@,
                result,
            ),
{
    let degenerate = coordinate_range.0 >= coordinate_range.1;
    let min = coordinate_range.0.to_string();
    let max = coordinate_range.1.to_string();
    let result = check_generation_parameters(
        number_of_vertices,
        degenerate,
        min.as_str(),
        max.as_str(),
    );
    assert(generation_parameters_outcome(number_of_vertices, degenerate, min@, max@, result));
    proof {
        if S::obeys_partial_cmp_spec() {
            assert(degenerate == range_degenerate(coordinate_range));
            assert(generation_parameters_outcome(
                number_of_vertices,
                range_degenerate(coordinate_range),
                min@,
                max@,
                result,
            ));
        }
    }
    result
}

/// The error of a generation that the engine failed: the request it was
/// made with, the first attempt, and the engine's own words.
pub fn generation_failure<S: Copy + core::fmt::Display>(
    number_of_vertices: u32,
    coordinate_range: (S, S),
    underlying_error: String,
) -> (error: CdtError)
    ensures
        error matches CdtError::DelaunayGenerationFailed {
            vertex_count,
            coordinate_range: range,
            attempt,
            underlying_error: words,
        } && vertex_count == number_of_vertices && attempt == 1 && words == underlying_error
            && to_string_from_display_ensures::<S>(&coordinate_range.0, range.min)
            && to_string_from_display_ensures::<S>(&coordinate_range.1, range.max),
{
    CdtError::DelaunayGenerationFailed {
        vertex_count: number_of_vertices,
        coordinate_range: CoordinateRange {
            min: coordinate_range.0.to_string(),
            max: coordinate_range.1.to_string(),
        },
        attempt: 1,
        underlying_error,
    }
}

} // verus!
