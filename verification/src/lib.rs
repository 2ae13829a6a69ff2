//! Expense-tracking assistant: the resilience toolkit that keeps its workers
//! alive, retries its network calls and caches its lookups, together with the
//! records and rules of the assistant itself.

use vstd::prelude::*;
use vstd::string::*;

pub mod communication;
pub mod configuration;
pub mod database;
pub mod request;
pub mod resilience;
pub mod text;

verus! {

/// Why the assistant stopped.
#[derive(Debug, Clone, PartialEq, Eq)]
pub enum AppError {
    /// The settings could not be loaded.
    ConfigError(String),
    /// A supervised service ended.
    ServiceError,
}

impl AppError {
    /// The text of the error.
    pub open spec fn text(&self) -> Seq<char> {
        match *self {
            AppError::ConfigError(detail) => "Config Error:"@ + detail@,
            AppError::ServiceError => "Service error"@,
        }
    }

    /// Writes the error out.
    pub fn message(&self) -> (text: String)
        ensures
            text@ == self.text(),
    {
        match self {
            AppError::ConfigError(detail) => String::from_str("Config Error:").concat(
                detail.as_str(),
            ),
            AppError::ServiceError => String::from_str("Service error"),
        }
    }
}

} // verus!
