use crate::domain::data_stores::{
    add_user_result, get_user_result, holds_valid_users, keyed_by_email, records_after_add,
    validate_user_result, UserRecords, UserStore, UserStoreError,
};
use crate::domain::email::is_valid_email;
use crate::domain::password::is_long_enough;
use crate::domain::email::Email;
use crate::domain::password::Password;
use crate::domain::user::User;
use vstd::hash_map::StringHashMap;
use vstd::prelude::*;

verus! {

broadcast use vstd::hash_map::group_hash_map_axioms;

/// A user store that keeps its records in a hash map, each under the text
/// of its e-mail address.
///
/// Passwords are kept as they were given: they are not hashed. Whoever
/// reads the store reads them.
pub struct HashmapUserStore {
    users: StringHashMap<User>,
}

impl HashmapUserStore {
    #[verifier::type_invariant]
    spec fn finite_with_each_valid_and_under_its_address(self) -> bool {
        &&& self.users@.dom().finite()
        &&& forall|address: Seq<char>| #[trigger]
            self.users@.contains_key(address) ==> {
                &&& self.users@[address].email@ == address
                &&& is_valid_email(self.users@[address].email@)
                &&& is_long_enough(self.users@[address].password@)
            }
    }

    /// An empty store.
    pub fn new() -> (store: Self)
        ensures
            store.records() == UserRecords::empty(),
            store.records().dom().finite(),
            store.records().len() == 0,
    {
        let store = HashmapUserStore { users: StringHashMap::new() };
        assert(store.records() =~= UserRecords::empty());
        store
    }

    /// The number of records held: there are finitely many.
    pub fn len(&self) -> (n: usize)
        ensures
            n == self.records().len(),
            self.records().dom().finite(),
            keyed_by_email(self.records()),
            holds_valid_users(self.records()),
    {
        proof {
            use_type_invariant(self);
        }
        assert(self.records().dom() =~= self.users@.dom());
        self.users.len()
    }
}

impl Default for HashmapUserStore {
    fn default() -> (store: Self)
        ensures
            store.records() == UserRecords::empty(),
            store.records().dom().finite(),
            store.records().len() == 0,
    {
        HashmapUserStore::new()
    }
}

impl UserStore for HashmapUserStore {
    closed spec fn records(&self) -> UserRecords {
        self.users@.map_values(|user: User| user@)
    }

    /// Adds the record unless its address is taken, in one step. A record
    /// that is taken is one more; every other record stays as it was.
    fn add_user(&mut self, user: User) -> (r: Result<(), UserStoreError>)
        ensures
            r == add_user_result(old(self).records(), user@),
            final(self).records() == records_after_add(old(self).records(), user@),
            old(self).records().dom().finite(),
            final(self).records().dom().finite(),
            r is Ok ==> final(self).records().len() == old(self).records().len() + 1,
            r is Err ==> final(self).records().len() == old(self).records().len(),
            keyed_by_email(final(self).records()),
            holds_valid_users(final(self).records()),
    {
        proof {
            use_type_invariant(&*self);
        }
        assert(old(self).records().dom() =~= old(self).users@.dom());
        if self.users.contains_key(user.email.as_str()) {
            Err(UserStoreError::UserAlreadyExists)
        } else {
            // Reading the credentials brings their validity along.
            let key = user.email.as_str().to_owned();
            let _ = user.password.as_str();
            // The map is taken out while it grows: the store's invariant
            // holds again once the record is in.
            let mut users = StringHashMap::new();
            core::mem::swap(&mut self.users, &mut users);
            users.insert(key, user);
            core::mem::swap(&mut self.users, &mut users);
            assert(self.records() =~= old(self).records().insert(user@.email, user@));
            assert(self.records().dom() =~= self.users@.dom());
            Ok(())
        }
    }

    /// Fetches a copy of the record held under the address.
    fn get_user(&self, email: &str) -> (r: Result<User, UserStoreError>)
        ensures
            match r {
                Ok(user) => get_user_result(self.records(), email@) == Ok::<_, UserStoreError>(
                    user@,
                ) && user@.email == email@,
                Err(e) => get_user_result(self.records(), email@) == Err::<
                    crate::domain::user::UserView,
                    _,
                >(e),
            },
    {
        proof {
            use_type_invariant(self);
        }
        let email = match Email::parse(email) {
            Ok(email) => email,
            Err(e) => {
                return Err(UserStoreError::from(e));
            },
        };
        match self.users.get(email.as_str()) {
            Some(user) => Ok(user.clone()),
            None => Err(UserStoreError::UserNotFound),
        }
    }

    /// Checks a credential pair against the record held under the address.
    /// The password must be the stored one, character for character; the
    /// comparison takes no care to run in constant time.
    fn validate_user(&self, email: &str, password: &str) -> (r: Result<(), UserStoreError>)
        ensures
            r == validate_user_result(self.records(), email@, password@),
    {
        let email = match Email::parse(email) {
            Ok(email) => email,
            Err(e) => {
                return Err(UserStoreError::from(e));
            },
        };
        let password = match Password::parse(password) {
            Ok(password) => password,
            Err(e) => {
                return Err(UserStoreError::from(e));
            },
        };
        match self.users.get(email.as_str()) {
            Some(user) => {
                if password != user.password {
                    Err(UserStoreError::InvalidCredentials)
                } else {
                    Ok(())
                }
            },
            None => Err(UserStoreError::UserNotFound),
        }
    }
}

} // verus!
