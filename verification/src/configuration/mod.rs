//! The assistant's settings.

use vstd::prelude::*;
use vstd::string::*;

verus! {

/// Why the settings could not be loaded.
#[derive(Debug, Clone, PartialEq, Eq)]
pub enum ConfigError {
    /// The settings file could not be read.
    FileError,
    /// The settings file does not hold valid settings.
    DeserializationError(String),
    /// The database named by the settings could not be opened.
    DatabaseServiceInitError,
}

impl ConfigError {
    /// The text of the error.
    pub open spec fn text(&self) -> Seq<char> {
        match *self {
            ConfigError::FileError => "File read error"@,
            ConfigError::DeserializationError(detail) => "Deserialization error:"@ + detail@,
            ConfigError::DatabaseServiceInitError => "Database init error"@,
        }
    }

    /// Writes the error out.
    pub fn message(&self) -> (text: String)
        ensures
            text@ == self.text(),
    {
        match self {
            ConfigError::FileError => String::from_str("File read error"),
            ConfigError::DeserializationError(detail) => String::from_str(
                "Deserialization error:",
            ).concat(detail.as_str()),
            ConfigError::DatabaseServiceInitError => String::from_str("Database init error"),
        }
    }
}

/// Where the assistant's messages go.
#[derive(Debug, Clone, PartialEq, Eq)]
pub struct TelegramConfig {
    pub price_alert_subscribers: Vec<i64>,
    pub error_channel_id: i64,
    pub admin_telegram_id: String,
}

/// The assistant's settings.
#[derive(Debug, Clone, PartialEq, Eq)]
pub struct Config {
    pub log_level: String,
    pub db_url: String,
    pub telegram: TelegramConfig,
}

} // verus!
