use super::email::is_valid_email;
use super::errors::CreateUserError;
use super::password::is_long_enough;
use super::user::{User, UserView};
use vstd::prelude::*;

verus! {

/// How an operation of a user store can fail.
#[derive(Debug, PartialEq, Eq, Structural)]
pub enum UserStoreError {
    UserAlreadyExists,
    UserNotFound,
    InvalidCredentials,
    UnexpectedError(CreateUserError),
    UnableToCreateUser,
}

impl From<CreateUserError> for UserStoreError {
    fn from(e: CreateUserError) -> (r: Self) {
        UserStoreError::UnexpectedError(e)
    }
}

impl vstd::std_specs::convert::FromSpecImpl<CreateUserError> for UserStoreError {
    open spec fn obeys_from_spec() -> bool {
        true
    }

    open spec fn from_spec(e: CreateUserError) -> Self {
        UserStoreError::UnexpectedError(e)
    }
}

/// How an operation of a revocation store can fail.
#[derive(Debug, PartialEq, Eq, Structural)]
pub enum BannedTokenError {
    UnexpectedError,
    BannedToken,
    InvalidInput,
    Poisoned,
}

/// The records of a user store: each is held under its e-mail address.
pub type UserRecords = Map<Seq<char>, UserView>;

/// No record is held under an address other than its own.
pub open spec fn keyed_by_email(users: UserRecords) -> bool {
    forall|address: Seq<char>| #[trigger]
        users.contains_key(address) ==> users[address].email == address
}

/// Every record holds a valid address and a password of the required
/// length.
pub open spec fn holds_valid_users(users: UserRecords) -> bool {
    forall|address: Seq<char>| #[trigger]
        users.contains_key(address) ==> is_valid_email(users[address].email) && is_long_enough(
            users[address].password,
        )
}

/// What adding a record does: a taken address leaves the records as they
/// are, a free one gets the record.
pub open spec fn records_after_add(users: UserRecords, user: UserView) -> UserRecords {
    if users.contains_key(user.email) {
        users
    } else {
        users.insert(user.email, user)
    }
}

/// The answer to adding a record.
pub open spec fn add_user_result(users: UserRecords, user: UserView) -> Result<(), UserStoreError> {
    if users.contains_key(user.email) {
        Err(UserStoreError::UserAlreadyExists)
    } else {
        Ok(())
    }
}

/// The answer to fetching the record of an address.
pub open spec fn get_user_result(users: UserRecords, email: Seq<char>) -> Result<
    UserView,
    UserStoreError,
> {
    if !is_valid_email(email) {
        Err(UserStoreError::UnexpectedError(CreateUserError::InvalidEmail))
    } else if !users.contains_key(email) {
        Err(UserStoreError::UserNotFound)
    } else {
        Ok(users[email])
    }
}

/// The answer to checking a credential pair: malformed input first, then
/// an unknown address, then a password that is not the stored one.
pub open spec fn validate_user_result(
    users: UserRecords,
    email: Seq<char>,
    password: Seq<char>,
) -> Result<(), UserStoreError> {
    if !is_valid_email(email) {
        Err(UserStoreError::UnexpectedError(CreateUserError::InvalidEmail))
    } else if !is_long_enough(password) {
        Err(UserStoreError::UnexpectedError(CreateUserError::InvalidPassword))
    } else if !users.contains_key(email) {
        Err(UserStoreError::UserNotFound)
    } else if users[email].password != password {
        Err(UserStoreError::InvalidCredentials)
    } else {
        Ok(())
    }
}

/// A record that is taken is one more, and no other record changes; a
/// record that is refused changes nothing.
pub proof fn lemma_add_user_adds_one(users: UserRecords, user: UserView)
    requires
        users.dom().finite(),
    ensures
        records_after_add(users, user).dom().finite(),
        add_user_result(users, user) is Ok ==> records_after_add(users, user).len() == users.len()
            + 1,
        add_user_result(users, user) is Err ==> records_after_add(users, user) == users,
        forall|address: Seq<char>|
            address != user.email ==> (#[trigger] records_after_add(users, user).contains_key(
                address,
            ) == users.contains_key(address) && (users.contains_key(address)
                ==> records_after_add(users, user)[address] == users[address])),
{
}

/// Two records with one address, added one after the other to records that
/// hold neither: the first is taken, the second is refused as existing and
/// changes nothing, so the address is held once, with the first record.
/// The two may come in either order, since the law holds of any pair.
pub proof fn lemma_add_user_twice(users: UserRecords, first: UserView, second: UserView)
    requires
        first.email == second.email,
        !users.contains_key(first.email),
    ensures
        add_user_result(users, first) == Ok::<(), UserStoreError>(()),
        add_user_result(records_after_add(users, first), second) == Err::<(), _>(
            UserStoreError::UserAlreadyExists,
        ),
        records_after_add(records_after_add(users, first), second) == records_after_add(
            users,
            first,
        ),
        records_after_add(users, first)[first.email] == first,
{
}

/// Adding a record keeps every address the key of its own record only,
/// and adding a valid record keeps the records valid.
pub proof fn lemma_add_user_keeps_records_in_order(users: UserRecords, user: UserView)
    ensures
        keyed_by_email(users) ==> keyed_by_email(records_after_add(users, user)),
        holds_valid_users(users) && is_valid_email(user.email) && is_long_enough(user.password)
            ==> holds_valid_users(records_after_add(users, user)),
{
}

/// A store of user records, unique by e-mail address.
///
/// The clauses here bind every implementation. A success is the one that
/// the records call for, and so is a failure that they call for. Where
/// they call for none an implementation may still fail, for reasons of its
/// own; it then leaves the records untouched.
pub trait UserStore {
    /// The records held.
    spec fn records(&self) -> UserRecords;

    fn add_user(&mut self, user: User) -> (r: Result<(), UserStoreError>)
        ensures
            old(self).records().dom().finite() ==> final(self).records().dom().finite(),
            keyed_by_email(old(self).records()) ==> keyed_by_email(final(self).records()),
            holds_valid_users(old(self).records()) ==> holds_valid_users(final(self).records()),
            match r {
                Ok(()) => add_user_result(old(self).records(), user@) is Ok && final(self).records()
                    == records_after_add(old(self).records(), user@),
                Err(e) => final(self).records() == old(self).records() && (add_user_result(
                    old(self).records(),
                    user@,
                ) matches Err(expected) ==> e == expected),
            },
    ;

    fn get_user(&self, email: &str) -> (r: Result<User, UserStoreError>)
        ensures
            match r {
                Ok(user) => get_user_result(self.records(), email@) == Ok::<_, UserStoreError>(
                    user@,
                ),
                Err(e) => get_user_result(self.records(), email@) matches Err(expected) ==> e
                    == expected,
            },
    ;

    fn validate_user(&self, email: &str, password: &str) -> (r: Result<(), UserStoreError>)
        ensures
            match r {
                Ok(()) => validate_user_result(self.records(), email@, password@) is Ok,
                Err(e) => validate_user_result(self.records(), email@, password@) matches Err(
                    expected,
                ) ==> e == expected,
            },
    ;
}

/// The answer to checking a token against the revoked ones.
pub open spec fn check_result(banned: Set<Seq<char>>, token: Seq<char>) -> Result<
    (),
    BannedTokenError,
> {
    if banned.contains(token) {
        Err(BannedTokenError::BannedToken)
    } else {
        Ok(())
    }
}

/// A store of revoked tokens. Tokens are added and never taken back.
///
/// The clauses here bind every implementation. A success is the one that
/// the set calls for. An implementation may fail for reasons of its own;
/// it then leaves the set untouched, and does not call a token revoked
/// that is not.
pub trait BannedTokenStore {
    /// The revoked tokens.
    spec fn banned(&self) -> Set<Seq<char>>;

    fn add(&mut self, data: String) -> (r: Result<(), BannedTokenError>)
        ensures
            old(self).banned().finite() ==> final(self).banned().finite(),
            match r {
                Ok(()) => final(self).banned() == old(self).banned().insert(data@),
                Err(_) => final(self).banned() == old(self).banned(),
            },
    ;

    fn check(&self, data: String) -> (r: Result<(), BannedTokenError>)
        ensures
            match r {
                Ok(()) => !self.banned().contains(data@),
                Err(e) => e == BannedTokenError::BannedToken ==> self.banned().contains(data@),
            },
    ;
}

} // verus!
