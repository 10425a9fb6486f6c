//! Error types of the library.

use crate::text::{decimal, decimal_string};
use vstd::prelude::*;
use vstd::string::StringExecFns;

verus! {

/// The two bounds of a coordinate interval, as rendered text.
#[derive(Debug, Clone, PartialEq)]
pub struct CoordinateRange {
    /// The lower bound.
    pub min: String,
    /// The upper bound.
    pub max: String,
}

/// Main error type of the library.
#[derive(Debug, Clone, PartialEq)]
pub enum CdtError {
    /// Invalid triangulation parameters.
    InvalidParameters(String),
    /// Triangulation generation failed.
    TriangulationGeneration(String),
    /// Ergodic move failed.
    ErgodicsFailure(String),
    /// Invalid dimension specified.
    UnsupportedDimension(u32),
    /// Action calculation error.
    ActionCalculation(String),
    /// Delaunay triangulation generation failed, with its context.
    DelaunayGenerationFailed {
        /// Number of vertices requested for the triangulation.
        vertex_count: u32,
        /// Coordinate range used for generation.
        coordinate_range: CoordinateRange,
        /// Attempt number when the failure occurred.
        attempt: u32,
        /// Description of the underlying error that caused the failure.
        underlying_error: String,
    },
    /// Invalid generation parameters detected before attempting triangulation.
    InvalidGenerationParameters {
        /// Description of the specific parameter issue.
        issue: String,
        /// The actual value that was provided.
        provided_value: String,
        /// The expected range or constraint for the parameter.
        expected_range: String,
    },
}

/// Result type of the library.
pub type CdtResult<T> = Result<T, CdtError>;

impl CdtError {
    /// The human-readable message of this error.
    pub open spec fn display_text(&self) -> Seq<char> {
        match self {
            CdtError::InvalidParameters(msg) => "Invalid parameters: "@ + msg@,
            CdtError::TriangulationGeneration(msg) => "Triangulation generation failed: "@ + msg@,
            CdtError::ErgodicsFailure(msg) => "Ergodic move failed: "@ + msg@,
            CdtError::UnsupportedDimension(dim) => "Unsupported dimension: "@ + decimal(
                *dim as nat,
            ) + ". Only 2D is currently supported"@,
            CdtError::ActionCalculation(msg) => "Action calculation error: "@ + msg@,
            CdtError::DelaunayGenerationFailed {
                vertex_count,
                coordinate_range,
                attempt,
                underlying_error,
            } => "Delaunay triangulation generation failed: "@ + decimal(*vertex_count as nat)
                + " vertices, range ["@ + coordinate_range.min@ + ", "@ + coordinate_range.max@
                + "], attempt "@ + decimal(*attempt as nat) + ": "@ + underlying_error@,
            CdtError::InvalidGenerationParameters { issue, provided_value, expected_range } =>
                "Invalid triangulation parameters: "@ + issue@ + " (got: "@ + provided_value@
                    + ", expected: "@ + expected_range@ + ")"@,
        }
    }

    /// Renders the message of this error.
    pub fn to_string(&self) -> (text: String)
        ensures
            text@ == self.display_text(),
    {
        match self {
            CdtError::InvalidParameters(msg) => {
                let mut text = String::from_str("Invalid parameters: ");
                text.append(msg.as_str());
                text
            },
            CdtError::TriangulationGeneration(msg) => {
                let mut text = String::from_str("Triangulation generation failed: ");
                text.append(msg.as_str());
                text
            },
            CdtError::ErgodicsFailure(msg) => {
                let mut text = String::from_str("Ergodic move failed: ");
                text.append(msg.as_str());
                text
            },
            CdtError::UnsupportedDimension(dim) => {
                let mut text = String::from_str("Unsupported dimension: ");
                let number = decimal_string(*dim as u64);
                text.append(number.as_str());
                text.append(". Only 2D is currently supported");
                text
            },
            CdtError::ActionCalculation(msg) => {
                let mut text = String::from_str("Action calculation error: ");
                text.append(msg.as_str());
                text
            },
            CdtError::DelaunayGenerationFailed {
                vertex_count,
                coordinate_range,
                attempt,
                underlying_error,
            } => {
                let mut text = String::from_str("Delaunay triangulation generation failed: ");
                let count = decimal_string(*vertex_count as u64);
                text.append(count.as_str());
                text.append(" vertices, range [");
                text.append(coordinate_range.min.as_str());
                text.append(", ");
                text.append(coordinate_range.max.as_str());
                text.append("], attempt ");
                let number = decimal_string(*attempt as u64);
                text.append(number.as_str());
                text.append(": ");
                text.append(underlying_error.as_str());
                text
            },
            CdtError::InvalidGenerationParameters { issue, provided_value, expected_range } => {
                let mut text = String::from_str("Invalid triangulation parameters: ");
                text.append(issue.as_str());
                text.append(" (got: ");
                text.append(provided_value.as_str());
                text.append(", expected: ");
                text.append(expected_range.as_str());
                text.append(")");
                text
            },
        }
    }
}

} // verus!
