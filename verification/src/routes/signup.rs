use super::CREATED;
use crate::domain::data_stores::{UserRecords, UserStore, UserStoreError};
use crate::domain::email::{is_valid_email, Email};
use crate::domain::errors::AuthAPIError;
use crate::domain::password::{is_long_enough, Password};
use crate::domain::user::{User, UserView};
use crate::services::hashmap_user_store::HashmapUserStore;
use vstd::prelude::*;

verus! {

/// What a signup request carries.
#[derive(Debug)]
pub struct SignupRequest {
    pub email: String,
    pub password: String,
    pub requires_2fa: bool,
}

/// The body that answers a signup that was served.
#[derive(Debug)]
pub struct SignupResponse {
    pub message: String,
}

impl View for SignupRequest {
    type V = UserView;

    open spec fn view(&self) -> UserView {
        UserView {
            email: self.email@,
            password: self.password@,
            requires_2fa: self.requires_2fa,
        }
    }
}

/// The verdict on a signup: malformed credentials first, then an address
/// that is taken.
pub open spec fn signup_result(users: UserRecords, request: UserView) -> Result<(), AuthAPIError> {
    if !is_valid_email(request.email) || !is_long_enough(request.password) {
        Err(AuthAPIError::InvalidUserCredentials)
    } else if users.contains_key(request.email) {
        Err(AuthAPIError::UserAlreadyExists)
    } else {
        Ok(())
    }
}

/// Serves a signup: validates the credentials and adds the record. A
/// request that is refused leaves the store as it was.
pub fn signup(
    store: &mut HashmapUserStore,
    request: SignupRequest,
) -> (r: Result<(u16, SignupResponse), AuthAPIError>)
    ensures
        match r {
            Ok((status, response)) => signup_result(old(store).records(), request@) is Ok
                && status == CREATED && response.message@ == "User created successfully!"@,
            Err(e) => signup_result(old(store).records(), request@) == Err::<(), _>(e),
        },
        r is Ok ==> final(store).records() == old(store).records().insert(
            request@.email,
            request@,
        ),
        r is Err ==> final(store).records() == old(store).records(),
        r is Ok ==> final(store).records().dom().finite() && final(store).records().len() == old(
            store,
        ).records().len() + 1,
{
    let email = match Email::parse(request.email.as_str()) {
        Ok(email) => email,
        Err(_) => {
            return Err(AuthAPIError::InvalidUserCredentials);
        },
    };
    let password = match Password::parse(request.password.as_str()) {
        Ok(password) => password,
        Err(_) => {
            return Err(AuthAPIError::InvalidUserCredentials);
        },
    };
    let user = User { email, password, requires_2fa: request.requires_2fa };
    match store.add_user(user) {
        Ok(()) => {},
        Err(UserStoreError::UserAlreadyExists) => {
            return Err(AuthAPIError::UserAlreadyExists);
        },
        Err(_) => {
            return Err(AuthAPIError::UnexpectedError);
        },
    }
    let response = SignupResponse { message: "User created successfully!".to_owned() };
    Ok((CREATED, response))
}

} // verus!
