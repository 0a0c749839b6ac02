use super::OK;
use crate::domain::data_stores::BannedTokenStore;
use crate::domain::errors::AuthAPIError;
use crate::services::hashset_banned_token_store::HashsetBannedTokenStore;
use crate::utils::auth::{validate_token, TokenService};
use crate::utils::token::validation_result;
use vstd::prelude::*;

verus! {

/// What a request to verify a token carries.
#[derive(Debug)]
pub struct VerifyTokenRequest {
    pub token: String,
}

/// The verdict on a token that was sent in for verification at the time
/// `now`: an empty one first, then one that does not validate.
pub open spec fn verify_token_result(
    key: Seq<u8>,
    banned: Set<Seq<char>>,
    token: Seq<char>,
    now: u64,
) -> Result<(), AuthAPIError> {
    if token.len() == 0 {
        Err(AuthAPIError::MalformedToken)
    } else if validation_result(key, token, now, banned) is Err {
        Err(AuthAPIError::InvalidToken)
    } else {
        Ok(())
    }
}

/// Serves a request to verify a token.
pub fn verify_token(
    tokens: &TokenService,
    banned: &HashsetBannedTokenStore,
    request: VerifyTokenRequest,
    now: u64,
) -> (r: Result<u16, AuthAPIError>)
    ensures
        match r {
            Ok(status) => status == OK && verify_token_result(
                tokens.key(),
                banned.banned(),
                request.token@,
                now,
            ) is Ok,
            Err(e) => verify_token_result(tokens.key(), banned.banned(), request.token@, now)
                == Err::<(), _>(e),
        },
{
    if request.token.as_str().is_empty() {
        return Err(AuthAPIError::MalformedToken);
    }
    if validate_token(tokens, request.token.as_str(), now, banned).is_err() {
        return Err(AuthAPIError::InvalidToken);
    }
    Ok(OK)
}

} // verus!
