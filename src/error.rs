use vstd::prelude::*;

verus! {

/// The ways in which a chat call can fail.
#[derive(Debug)]
pub enum LLMError {
    /// The local setup is invalid (the HTTP client could not be built).
    ConfigError(String),
    /// The transport failed, before the response or while reading it.
    NetworkError(String),
    /// The service answered with a status other than success.
    ApiError(String),
}

} // verus!
