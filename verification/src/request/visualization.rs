//! Why a chart could not be drawn.

use vstd::prelude::*;
use vstd::string::*;

verus! {

/// Why a chart could not be drawn.
#[derive(Debug, Clone, PartialEq, Eq)]
pub enum VisualizationError {
    /// Drawing or encoding failed.
    ChartError(String),
    /// There was nothing to draw.
    NoData,
}

impl VisualizationError {
    /// The text of the error.
    pub open spec fn text(&self) -> Seq<char> {
        match *self {
            VisualizationError::ChartError(detail) => "Chart generation failed: "@ + detail@,
            VisualizationError::NoData => "No data to visualize"@,
        }
    }

    /// Writes the error out.
    pub fn message(&self) -> (text: String)
        ensures
            text@ == self.text(),
    {
        match self {
            VisualizationError::ChartError(detail) => String::from_str(
                "Chart generation failed: ",
            ).concat(detail.as_str()),
            VisualizationError::NoData => String::from_str("No data to visualize"),
        }
    }
}

} // verus!
