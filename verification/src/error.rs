//! Error types for the Immich API workflows.

use vstd::prelude::*;

use crate::text::{concat_str, dec_digits, u64_to_string};

verus! {

/// Errors that can occur when interacting with the Immich API.
///
/// Transport and URL errors carry the text of the underlying error, so the
/// library's logic stays on plain values.
pub enum ImmichError {
    /// HTTP request failed (network error, timeout, etc.)
    Http(String),

    /// API returned an error response
    Api {
        /// HTTP status code
        status: u16,
        /// Error message from the API
        message: String,
    },

    /// Invalid URL format
    Url(String),

    /// API key is malformed or invalid
    InvalidApiKey,

    /// Requested asset was not found
    AssetNotFound(String),

    /// Reading or writing a local file failed
    Io(String),
}

/// The display text of an error.
pub open spec fn spec_error_message(e: ImmichError) -> Seq<char> {
    match e {
        ImmichError::Http(s) => "HTTP request failed: "@ + s@,
        ImmichError::Api { status, message } => "API error "@ + dec_digits(status as nat) + ": "@
            + message@,
        ImmichError::Url(s) => "Invalid URL: "@ + s@,
        ImmichError::InvalidApiKey => "Invalid API key format"@,
        ImmichError::AssetNotFound(s) => "Asset not found: "@ + s@,
        ImmichError::Io(s) => "IO error: "@ + s@,
    }
}

impl ImmichError {
    /// The display text of the error, naming its kind and its detail.
    pub fn message(&self) -> (r: String)
        ensures
            r@ == spec_error_message(*self),
    {
        match self {
            ImmichError::Http(s) => concat_str("HTTP request failed: ", s.as_str()),
            ImmichError::Api { status, message } => {
                let head = concat_str("API error ", u64_to_string(*status as u64).as_str());
                let head = concat_str(head.as_str(), ": ");
                concat_str(head.as_str(), message.as_str())
            },
            ImmichError::Url(s) => concat_str("Invalid URL: ", s.as_str()),
            ImmichError::InvalidApiKey => "Invalid API key format".to_owned(),
            ImmichError::AssetNotFound(s) => concat_str("Asset not found: ", s.as_str()),
            ImmichError::Io(s) => concat_str("IO error: ", s.as_str()),
        }
    }
}

} // verus!
