//! What each request decides: from the request and the stores to the
//! answer, as plain values. Reading a request off the wire and writing the
//! answer back is left to the caller.

use vstd::prelude::*;

pub mod login;
pub mod logout;
pub mod signup;
pub mod verify_2fa;
pub mod verify_token;

pub use login::{login, LoginRequest, LoginResponse};
pub use logout::logout;
pub use signup::{signup, SignupRequest, SignupResponse};
pub use verify_2fa::verify_2fa;
pub use verify_token::{verify_token, VerifyTokenRequest};

verus! {

/// The status code of a request that was served.
pub const OK: u16 = 200;

/// The status code of a request that created a record.
pub const CREATED: u16 = 201;

} // verus!
