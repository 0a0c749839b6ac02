//! Session tokens, their text encoding, and the constants shared by
//! issuance and validation.

pub mod auth;
pub mod constants;
pub mod hex;
pub mod signing;
pub mod token;
