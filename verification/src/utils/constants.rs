use vstd::prelude::*;

verus! {

/// The name of the cookie that carries the session token, at issuance and
/// at validation alike.
pub const JWT_COOKIE_NAME: &'static str = "jwt";

/// The path that the session cookie is bound to.
pub const JWT_COOKIE_PATH: &'static str = "/";

} // verus!
