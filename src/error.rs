use vstd::prelude::*;

verus! {

/// Why a fetch or a decode failed.
#[derive(Debug, Clone, PartialEq, Eq)]
pub enum FetchError {
    /// The request could not be completed; the transport's message.
    Transport(String),
    /// The body is not a JSON object with a text `name` member.
    Deserialization,
}

} // verus!
