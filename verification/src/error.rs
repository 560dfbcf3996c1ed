//! The closed error taxonomy of the client.
//!
//! Every stage of the pipeline either yields input for the next stage or
//! short-circuits with one of these kinds; no partial results are ever
//! returned.
use vstd::prelude::*;

verus! {

/// Everything that can go wrong while fetching or converting provider data.
#[derive(Clone, Debug, PartialEq, Eq)]
pub enum BancaDItaliaError {
    /// The request to the Banca d'Italia servers failed at the transport
    /// level (network, non-success status, TLS); the underlying cause is
    /// carried as text.
    RequestFailed(String),
    /// An element of the result array does not match the expected structural
    /// shape; the mismatch description is carried as text.
    DeserializeFailed(String),
    /// The API payload could not be converted; used for date-parsing
    /// failures, carried as a free-text message.
    ApiError(String),
    /// The expected top-level array key is absent or not an array: the
    /// provider returned an empty dataset. Distinct from malformed input.
    NoResult,
    /// A rate string is non-empty, non-sentinel, and not a valid decimal
    /// numeral; the underlying numeric-parse cause is carried as text.
    ConversionFailed(String),
}

impl BancaDItaliaError {
    /// A short description of the error kind: the carried cause where one
    /// exists, a fixed text for the empty-dataset signal.
    pub fn message(&self) -> (r: String)
        ensures
            match self {
                BancaDItaliaError::RequestFailed(cause) => r@ == cause@,
                BancaDItaliaError::DeserializeFailed(cause) => r@ == cause@,
                BancaDItaliaError::ApiError(cause) => r@ == cause@,
                BancaDItaliaError::NoResult => r@ == "empty dataset"@,
                BancaDItaliaError::ConversionFailed(cause) => r@ == cause@,
            },
    {
        match self {
            BancaDItaliaError::RequestFailed(cause) => cause.clone(),
            BancaDItaliaError::DeserializeFailed(cause) => cause.clone(),
            BancaDItaliaError::ApiError(cause) => cause.clone(),
            BancaDItaliaError::NoResult => "empty dataset".to_owned(),
            BancaDItaliaError::ConversionFailed(cause) => cause.clone(),
        }
    }
}

} // verus!
