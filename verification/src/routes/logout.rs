use super::OK;
use crate::domain::data_stores::BannedTokenStore;
use crate::domain::errors::AuthAPIError;
use crate::services::hashset_banned_token_store::HashsetBannedTokenStore;
use crate::utils::auth::{validate_token, TokenService};
use crate::utils::token::{signed_claims, validation_result, TokenError};
use crate::utils::constants::JWT_COOKIE_NAME;
use vstd::prelude::*;

verus! {

/// The verdict on a logout at the time `now`, given the value of the
/// session cookie: a request without the cookie first, then a token that
/// does not validate.
pub open spec fn logout_result(
    key: Seq<u8>,
    banned: Set<Seq<char>>,
    cookie: Option<Seq<char>>,
    now: u64,
) -> Result<(), AuthAPIError> {
    match cookie {
        None => Err(AuthAPIError::MissingToken),
        Some(token) => if validation_result(key, token, now, banned) is Err {
            Err(AuthAPIError::InvalidToken)
        } else {
            Ok(())
        },
    }
}

/// The value of a cookie as text.
pub open spec fn cookie_text(cookie: Option<&str>) -> Option<Seq<char>> {
    match cookie {
        Some(value) => Some(value@),
        None => None,
    }
}

/// Serves a logout: revokes the token that the session cookie carries, in
/// the store itself, and names the cookie that the answer is to clear. A
/// request that is refused leaves the store as it was.
pub fn logout(
    tokens: &TokenService,
    banned: &mut HashsetBannedTokenStore,
    cookie: Option<&str>,
    now: u64,
) -> (r: Result<(&'static str, u16), AuthAPIError>)
    ensures
        match r {
            Ok((cleared, status)) => logout_result(
                tokens.key(),
                old(banned).banned(),
                cookie_text(cookie),
                now,
            ) is Ok && cleared@ == JWT_COOKIE_NAME@ && status == OK,
            Err(e) => logout_result(tokens.key(), old(banned).banned(), cookie_text(cookie), now)
                == Err::<(), _>(e),
        },
        r is Ok ==> (cookie matches Some(token) && final(banned).banned() == old(
            banned,
        ).banned().insert(token@)),
        r is Err ==> final(banned).banned() == old(banned).banned(),
{
    let token = match cookie {
        Some(token) => token,
        None => {
            return Err(AuthAPIError::MissingToken);
        },
    };
    if validate_token(tokens, token, now, banned).is_err() {
        return Err(AuthAPIError::InvalidToken);
    }
    let _ = banned.add(token.to_owned());
    Ok((JWT_COOKIE_NAME, OK))
}

/// A token that a served logout revoked is refused by validation from then
/// on, however the revoked tokens grow: as revoked for as long as it has
/// not expired, though its signature and its expiry still stand.
pub proof fn lemma_logged_out_token_is_refused(
    key: Seq<u8>,
    banned: Set<Seq<char>>,
    token: Seq<char>,
    now: u64,
    later: u64,
    banned_later: Set<Seq<char>>,
)
    requires
        logout_result(key, banned, Some(token), now) is Ok,
        banned.insert(token).subset_of(banned_later),
    ensures
        validation_result(key, token, later, banned_later) is Err,
        later < signed_claims(key, token).unwrap().expiry ==> validation_result(
            key,
            token,
            later,
            banned_later,
        ) == Err::<Seq<char>, _>(TokenError::Revoked),
{
    assert(banned.insert(token).contains(token));
}

/// After a logout was served, a second one fails, at any time and however
/// the revoked tokens grow: as a missing token where the cookie is gone,
/// as an invalid token where the same one is sent again.
pub proof fn lemma_second_logout_fails(
    key: Seq<u8>,
    banned: Set<Seq<char>>,
    token: Seq<char>,
    later: u64,
)
    requires
        banned.contains(token),
    ensures
        logout_result(key, banned, None, later) == Err::<(), _>(AuthAPIError::MissingToken),
        logout_result(key, banned, Some(token), later) == Err::<(), _>(AuthAPIError::InvalidToken),
{
}

} // verus!
