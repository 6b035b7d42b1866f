//! Errors that leave the core as hard failures.
use vstd::prelude::*;

verus! {

/// Provider-level and decoding failures.
#[derive(Clone, Debug, PartialEq, Eq)]
pub enum GeneratorError {
    /// The provider's API key variable is not set; holds the variable's name.
    AuthMissing(String),
    /// The provider kept rate limiting past the retry budget; holds its message.
    RateLimited(String),
    /// A tool call's arguments are not a JSON object.
    Unparseable,
    /// The provider answered in a form this core does not handle.
    Unsupported(String),
    /// Any other provider error, with its message.
    Provider(String),
    /// The provider offers no such endpoint.
    NotImplemented(String),
}

} // verus!
