use super::OK;
use crate::domain::data_stores::{validate_user_result, UserRecords, UserStore};
use crate::domain::email::{is_valid_email, Email};
use crate::domain::errors::AuthAPIError;
use crate::domain::password::{is_long_enough, Password};
use crate::services::hashmap_user_store::HashmapUserStore;
use crate::utils::auth::{
    can_issue_at, generate_auth_cookie, issued_token, lemma_issued_token_validates,
    SessionCookie, TokenService, TOKEN_TTL_SECONDS,
};
use crate::utils::token::validation_result;
use vstd::prelude::*;

verus! {

/// What a login request carries.
#[derive(Debug)]
pub struct LoginRequest {
    pub email: String,
    pub password: String,
}

/// The body that names whom a login was served for.
#[derive(Debug)]
pub struct LoginResponse {
    pub email: String,
}

/// The verdict on a login at the time `now`, and the token that a served
/// one is answered with: an empty or malformed address first, then a
/// malformed password, then credentials that the records do not bear out,
/// then an expiry that cannot be had.
///
/// An unknown address and a wrong password get the same answer: a login
/// does not tell which addresses are known.
pub open spec fn login_result(
    users: UserRecords,
    key: Seq<u8>,
    email: Seq<char>,
    password: Seq<char>,
    now: u64,
) -> Result<Seq<char>, AuthAPIError> {
    if email.len() == 0 || password.len() == 0 || !is_valid_email(email) {
        Err(AuthAPIError::InvalidCredentials)
    } else if !is_long_enough(password) {
        Err(AuthAPIError::InvalidUserCredentials)
    } else if validate_user_result(users, email, password) is Err {
        Err(AuthAPIError::Unauthorized)
    } else if !can_issue_at(now) {
        Err(AuthAPIError::UnexpectedError)
    } else {
        Ok(issued_token(key, email, now))
    }
}

/// Serves a login: checks the credentials against the store and, where
/// they hold, issues a token to the user and hands it out in the session
/// cookie.
pub fn login(
    store: &HashmapUserStore,
    tokens: &TokenService,
    request: LoginRequest,
    now: u64,
) -> (r: Result<(SessionCookie, u16), AuthAPIError>)
    ensures
        match r {
            Ok((cookie, status)) => login_result(
                store.records(),
                tokens.key(),
                request.email@,
                request.password@,
                now,
            ) matches Ok(token) && cookie.carries(token) && status == OK,
            Err(e) => login_result(
                store.records(),
                tokens.key(),
                request.email@,
                request.password@,
                now,
            ) == Err::<Seq<char>, _>(e),
        },
{
    let malformed = request.email.as_str().is_empty() || request.password.as_str().is_empty();
    if malformed {
        return Err(AuthAPIError::InvalidCredentials);
    }
    let email = match Email::parse(request.email.as_str()) {
        Ok(email) => email,
        Err(_) => {
            return Err(AuthAPIError::InvalidCredentials);
        },
    };
    let password = match Password::parse(request.password.as_str()) {
        Ok(password) => password,
        Err(_) => {
            return Err(AuthAPIError::InvalidUserCredentials);
        },
    };
    if store.validate_user(email.as_str(), password.as_str()).is_err() {
        return Err(AuthAPIError::Unauthorized);
    }
    let user = match store.get_user(email.as_str()) {
        Ok(user) => user,
        Err(_) => {
            return Err(AuthAPIError::Unauthorized);
        },
    };
    match generate_auth_cookie(tokens, &user.email, now) {
        Ok(cookie) => Ok((cookie, OK)),
        Err(_) => Err(AuthAPIError::UnexpectedError),
    }
}

/// The token that a login is answered with validates to the address that
/// logged in, right away and for as long as it holds, unless the very
/// token is among the revoked ones.
pub proof fn lemma_login_token_validates(
    users: UserRecords,
    key: Seq<u8>,
    email: Seq<char>,
    password: Seq<char>,
    now: u64,
    later: u64,
    banned: Set<Seq<char>>,
)
    requires
        login_result(users, key, email, password, now) is Ok,
        now <= later < now + TOKEN_TTL_SECONDS,
        !banned.contains(login_result(users, key, email, password, now).unwrap()),
    ensures
        validation_result(
            key,
            login_result(users, key, email, password, now).unwrap(),
            later,
            banned,
        ) == Ok::<_, crate::utils::token::TokenError>(email),
{
    lemma_issued_token_validates(key, email, now, later, banned);
}

} // verus!
