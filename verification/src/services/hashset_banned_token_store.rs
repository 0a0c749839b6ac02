use crate::domain::data_stores::{check_result, BannedTokenError, BannedTokenStore};
use vstd::hash_set::StringHashSet;
use vstd::prelude::*;

verus! {

broadcast use vstd::hash_set::group_hash_set_axioms;

/// A revocation store that keeps the revoked tokens in a hash set.
/// Entries are added and never removed.
pub struct HashsetBannedTokenStore {
    banned: StringHashSet,
}

impl HashsetBannedTokenStore {
    #[verifier::type_invariant]
    spec fn finite(self) -> bool {
        self.banned@.finite()
    }

    /// An empty store.
    pub fn new() -> (store: Self)
        ensures
            store.banned() == Set::<Seq<char>>::empty(),
            store.banned().finite(),
    {
        HashsetBannedTokenStore { banned: StringHashSet::new() }
    }

    /// The number of revoked tokens held: there are finitely many.
    pub fn len(&self) -> (n: usize)
        ensures
            n == self.banned().len(),
            self.banned().finite(),
    {
        proof {
            use_type_invariant(self);
        }
        self.banned.len()
    }
}

impl Default for HashsetBannedTokenStore {
    fn default() -> (store: Self)
        ensures
            store.banned() == Set::<Seq<char>>::empty(),
            store.banned().finite(),
    {
        HashsetBannedTokenStore::new()
    }
}

impl BannedTokenStore for HashsetBannedTokenStore {
    closed spec fn banned(&self) -> Set<Seq<char>> {
        self.banned@
    }

    /// Revokes the token. This store never fails. A token that was not
    /// revoked before is one more.
    fn add(&mut self, data: String) -> (r: Result<(), BannedTokenError>)
        ensures
            r == Ok::<(), BannedTokenError>(()),
            final(self).banned() == old(self).banned().insert(data@),
            final(self).banned().finite(),
            old(self).banned().finite(),
            !old(self).banned().contains(data@) ==> final(self).banned().len() == old(
                self,
            ).banned().len() + 1,
            old(self).banned().contains(data@) ==> final(self).banned().len() == old(
                self,
            ).banned().len(),
    {
        proof {
            use_type_invariant(&*self);
        }
        // The set is taken out while it grows: the store's invariant holds
        // again once the token is in.
        let mut banned = StringHashSet::new();
        core::mem::swap(&mut self.banned, &mut banned);
        banned.insert(data);
        core::mem::swap(&mut self.banned, &mut banned);
        Ok(())
    }

    /// Refuses exactly the revoked tokens.
    fn check(&self, data: String) -> (r: Result<(), BannedTokenError>)
        ensures
            r == check_result(self.banned(), data@),
    {
        if self.banned.contains(data.as_str()) {
            return Err(BannedTokenError::BannedToken);
        }
        Ok(())
    }
}

} // verus!
