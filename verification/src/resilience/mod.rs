//! The resilience toolkit: failure descriptions, the expirable cache, the
//! retry client and the service supervisor.

use vstd::prelude::*;
use vstd::string::*;

pub mod cache;
pub mod http;
pub mod service_manager;

verus! {

/// The number of failure descriptions that can wait for the service that
/// reports them; a service that has one more to hand in waits for room.
pub const ERROR_CHANNEL_CAPACITY: usize = 100;

/// A failure description produced by a service.
#[derive(Debug, Clone, PartialEq, Eq)]
pub struct Error(String);

impl View for Error {
    type V = Seq<char>;

    closed spec fn view(&self) -> Seq<char> {
        self.0@
    }
}

impl Error {
    /// A failure with the given description.
    pub fn new(s: &str) -> (e: Error)
        ensures
            e@ == s@,
    {
        Error(String::from_str(s))
    }

    /// A failure described by the text of another error.
    pub fn from<E: std::error::Error>(e: E) -> (r: Error)
        ensures
            exists|text: String| #[trigger]
                to_string_from_display_ensures::<E>(&e, text) && r@ == text@,
    {
        let text = e.to_string();
        Error(text)
    }

    /// The description of the failure.
    pub fn message(&self) -> (text: String)
        ensures
            text@ == self@,
    {
        self.0.clone()
    }
}

} // verus!
