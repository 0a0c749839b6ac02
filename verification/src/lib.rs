//! An in-memory authentication backend: validated credentials, a user
//! record store, a token revocation store and signed session tokens.
//!
//! - [`domain`] holds the credential value types, the user record, the
//!   error kinds and the two storage interfaces.
//! - [`services`] holds the in-memory stores.
//! - [`utils`] holds the session token service: how a token is written,
//!   signed and judged.
//! - [`routes`] holds what each request decides, from plain values to plain
//!   values.
//!
//! All state lives in the stores that the caller owns; nothing is kept
//! beyond them. Time never comes from a clock in here: every function that
//! depends on it is told the time, in seconds since the Unix epoch.

use domain::AuthAPIError;
use vstd::prelude::*;

pub mod domain;
pub mod routes;
pub mod services;
pub mod utils;

verus! {

/// The body that answers a failed request.
#[derive(Debug)]
pub struct ErrorResponse {
    pub error: String,
}

impl AuthAPIError {
    /// The answer to a failed request: its status code and its body.
    pub fn into_response(self) -> (response: (u16, ErrorResponse))
        ensures
            response.0 == self.status(),
            response.1.error@ == self.message(),
    {
        let body = ErrorResponse { error: self.error_message().to_owned() };
        (self.status_code(), body)
    }
}

} // verus!
