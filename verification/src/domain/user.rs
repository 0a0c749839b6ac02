use super::email::{is_valid_email, Email};
use super::errors::CreateUserError;
use super::password::{is_long_enough, Password};
use vstd::prelude::*;

verus! {

/// A user record as plain values.
pub ghost struct UserView {
    pub email: Seq<char>,
    pub password: Seq<char>,
    pub requires_2fa: bool,
}

/// A user record. It is created on signup and never changed afterwards.
#[derive(Debug, Eq, Hash)]
pub struct User {
    pub email: Email,
    pub password: Password,
    pub requires_2fa: bool,
}

impl View for User {
    type V = UserView;

    open spec fn view(&self) -> UserView {
        UserView {
            email: self.email@,
            password: self.password@,
            requires_2fa: self.requires_2fa,
        }
    }
}

/// What `User::new` makes of its arguments: the e-mail address is judged
/// first, then the password.
pub open spec fn new_user(email: Seq<char>, password: Seq<char>, requires_2fa: bool) -> Result<
    UserView,
    CreateUserError,
> {
    if !is_valid_email(email) {
        Err(CreateUserError::InvalidEmail)
    } else if !is_long_enough(password) {
        Err(CreateUserError::InvalidPassword)
    } else {
        Ok(UserView { email, password, requires_2fa })
    }
}

impl User {
    /// Validates both credentials and builds the record.
    pub fn new(email: &str, password: &str, requires2fa: bool) -> (r: Result<User, CreateUserError>)
        ensures
            match r {
                Ok(user) => new_user(email@, password@, requires2fa) == Ok::<_, CreateUserError>(
                    user@,
                ),
                Err(e) => new_user(email@, password@, requires2fa) == Err::<UserView, _>(e),
            },
    {
        let email = match Email::parse(email) {
            Ok(email) => email,
            Err(e) => {
                return Err(e);
            },
        };
        let password = match Password::parse(password) {
            Ok(password) => password,
            Err(e) => {
                return Err(e);
            },
        };
        Ok(User { email, password, requires_2fa: requires2fa })
    }
}

impl Clone for User {
    fn clone(&self) -> (r: Self)
        ensures
            r@ == self@,
    {
        User {
            email: self.email.clone(),
            password: self.password.clone(),
            requires_2fa: self.requires_2fa,
        }
    }
}

impl PartialEq for User {
    fn eq(&self, other: &Self) -> (equal: bool) {
        self.email == other.email && self.password == other.password && self.requires_2fa
            == other.requires_2fa
    }
}

impl vstd::std_specs::cmp::PartialEqSpecImpl for User {
    open spec fn obeys_eq_spec() -> bool {
        true
    }

    open spec fn eq_spec(&self, other: &Self) -> bool {
        self@ == other@
    }
}

} // verus!
