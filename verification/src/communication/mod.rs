//! What the assistant says to its users and to its keepers.

pub mod telegram;
