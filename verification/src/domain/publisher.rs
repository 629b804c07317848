use vstd::prelude::*;

use crate::domain::error::DomainError;
use crate::domain::vo::PublisherName;
use crate::stamp;

verus! {

/// A publisher: identity (internal sequence id plus external stable
/// id), a validated name, and audit metadata.
pub struct Publisher {
    pub id: i32,
    pub pub_id: u128,
    pub name: PublisherName,
    pub created_at: i64,
    pub updated_at: i64,
    pub created_by: String,
    pub updated_by: String,
}

impl Publisher {
    /// A newly created publisher: zero internal id (assigned on
    /// insert), the given external id and name, and audit stamps
    /// taken from a single reading of the clock.
    pub fn new(pub_id: u128, name: PublisherName, created_by: String) -> (p: Publisher)
        ensures
            p.id == 0,
            p.pub_id == pub_id,
            p.name == name,
            p.created_at == p.updated_at,
            p.created_by == created_by,
            p.updated_by == created_by,
    {
        let now = stamp::now_timestamp();
        let updated_by = created_by.clone();
        Publisher { id: 0, pub_id, name, created_at: now, updated_at: now, created_by, updated_by }
    }

    /// A publisher rebuilt from stored field values, taken as they
    /// are.
    pub fn reconstruct(
        id: i32,
        pub_id: u128,
        name: PublisherName,
        created_at: i64,
        updated_at: i64,
        created_by: String,
        updated_by: String,
    ) -> (p: Publisher)
        ensures
            p == (Publisher { id, pub_id, name, created_at, updated_at, created_by, updated_by }),
    {
        Publisher { id, pub_id, name, created_at, updated_at, created_by, updated_by }
    }

    /// Replaces the name and refreshes the audit stamp. No domain
    /// rule guards a publisher update, so it always succeeds.
    pub fn update(&mut self, name: PublisherName, updated_by: String) -> (r: Result<
        (),
        DomainError,
    >)
        ensures
            r is Ok,
            final(self).id == old(self).id,
            final(self).pub_id == old(self).pub_id,
            final(self).name == name,
            final(self).created_at == old(self).created_at,
            final(self).created_by == old(self).created_by,
            final(self).updated_by == updated_by,
    {
        self.name = name;
        self.update_audit(updated_by);
        Ok(())
    }

    /// Refreshes the update audit stamp from the clock.
    fn update_audit(&mut self, updated_by: String)
        ensures
            final(self).id == old(self).id,
            final(self).pub_id == old(self).pub_id,
            final(self).name == old(self).name,
            final(self).created_at == old(self).created_at,
            final(self).created_by == old(self).created_by,
            final(self).updated_by == updated_by,
    {
        self.updated_at = stamp::now_timestamp();
        self.updated_by = updated_by;
    }
}

impl Clone for Publisher {
    /// An exact copy: the clone equals the original.
    fn clone(&self) -> (r: Self)
        ensures
            r == *self,
    {
        Publisher {
            id: self.id,
            pub_id: self.pub_id,
            name: self.name.clone(),
            created_at: self.created_at,
            updated_at: self.updated_at,
            created_by: self.created_by.clone(),
            updated_by: self.updated_by.clone(),
        }
    }
}

} // verus!
