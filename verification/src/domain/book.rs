use vstd::prelude::*;

use crate::domain::error::DomainError;
use crate::domain::vo::{BookAuthor, BookFormat, BookPrice, BookTitle};
use crate::stamp;

verus! {

/// The two states a book can be in. A book starts out unapplied;
/// `switch_status` toggles between the states unconditionally, and a
/// book whose status is applied refuses `update` until it is switched
/// back.
#[derive(Clone, Copy, PartialEq, Eq, Structural, Debug)]
pub enum BookStatus {
    Unapplied,
    Applied,
}

impl BookStatus {
    /// The other of the two states.
    pub open spec fn flipped(self) -> BookStatus {
        match self {
            BookStatus::Unapplied => BookStatus::Applied,
            BookStatus::Applied => BookStatus::Unapplied,
        }
    }
}

/// A book: identity (internal sequence id plus external stable id),
/// validated title, author and price, references to a publisher and
/// optionally a shop by their external ids, a format, the two-state
/// status, and audit metadata.
pub struct Book {
    pub id: i32,
    pub pub_id: u128,
    pub title: BookTitle,
    pub author: BookAuthor,
    pub publisher_pub_id: u128,
    pub shop_pub_id: Option<u128>,
    pub status: BookStatus,
    pub format: BookFormat,
    pub price: BookPrice,
    pub created_at: i64,
    pub updated_at: i64,
    pub created_by: String,
    pub updated_by: String,
}

impl Book {
    /// A newly created book: zero internal id (assigned on insert),
    /// the given external id and field values, unapplied status, and
    /// audit stamps taken from a single reading of the clock.
    pub fn new(
        pub_id: u128,
        title: BookTitle,
        author: BookAuthor,
        publisher_pub_id: u128,
        shop_pub_id: Option<u128>,
        format: BookFormat,
        price: BookPrice,
        created_by: String,
    ) -> (b: Book)
        ensures
            b.id == 0,
            b.pub_id == pub_id,
            b.title == title,
            b.author == author,
            b.publisher_pub_id == publisher_pub_id,
            b.shop_pub_id == shop_pub_id,
            b.status == BookStatus::Unapplied,
            b.format == format,
            b.price == price,
            b.created_at == b.updated_at,
            b.created_by == created_by,
            b.updated_by == created_by,
    {
        let now = stamp::now_timestamp();
        let updated_by = created_by.clone();
        Book {
            id: 0,
            pub_id,
            title,
            author,
            publisher_pub_id,
            shop_pub_id,
            status: BookStatus::Unapplied,
            format,
            price,
            created_at: now,
            updated_at: now,
            created_by,
            updated_by,
        }
    }

    /// A book rebuilt from stored field values, taken as they are.
    pub fn reconstruct(
        id: i32,
        pub_id: u128,
        title: BookTitle,
        author: BookAuthor,
        publisher_pub_id: u128,
        shop_pub_id: Option<u128>,
        status: BookStatus,
        format: BookFormat,
        price: BookPrice,
        created_at: i64,
        updated_at: i64,
        created_by: String,
        updated_by: String,
    ) -> (b: Book)
        ensures
            b == (Book {
                id,
                pub_id,
                title,
                author,
                publisher_pub_id,
                shop_pub_id,
                status,
                format,
                price,
                created_at,
                updated_at,
                created_by,
                updated_by,
            }),
    {
        Book {
            id,
            pub_id,
            title,
            author,
            publisher_pub_id,
            shop_pub_id,
            status,
            format,
            price,
            created_at,
            updated_at,
            created_by,
            updated_by,
        }
    }

    /// Replaces the mutable fields and refreshes the audit stamp, but
    /// only while the book is unapplied: an applied book rejects every
    /// update with a domain-rule violation and is left untouched. The
    /// identity, status and creation audit fields never change here.
    pub fn update(
        &mut self,
        title: BookTitle,
        author: BookAuthor,
        publisher_pub_id: u128,
        shop_pub_id: Option<u128>,
        format: BookFormat,
        price: BookPrice,
        updated_by: String,
    ) -> (r: Result<(), DomainError>)
        ensures
            r is Ok <==> old(self).status == BookStatus::Unapplied,
            r matches Err(e) ==> e is DomainRuleViolation && *final(self) == *old(self),
            r is Ok ==> {
                &&& final(self).id == old(self).id
                &&& final(self).pub_id == old(self).pub_id
                &&& final(self).title == title
                &&& final(self).author == author
                &&& final(self).publisher_pub_id == publisher_pub_id
                &&& final(self).shop_pub_id == shop_pub_id
                &&& final(self).status == old(self).status
                &&& final(self).format == format
                &&& final(self).price == price
                &&& final(self).created_at == old(self).created_at
                &&& final(self).created_by == old(self).created_by
                &&& final(self).updated_by == updated_by
            },
    {
        if self.status == BookStatus::Applied {
            return Err(
                DomainError::DomainRuleViolation("An applied book cannot be updated".to_owned()),
            );
        }
        self.title = title;
        self.author = author;
        self.publisher_pub_id = publisher_pub_id;
        self.shop_pub_id = shop_pub_id;
        self.format = format;
        self.price = price;
        self.update_audit(updated_by);
        Ok(())
    }

    /// Flips the status between unapplied and applied, exactly once,
    /// with no guard: the toggle succeeds whatever the prior state.
    /// Every field except the status and the update audit stamp is
    /// kept.
    pub fn switch_status(&mut self, updated_by: String)
        ensures
            final(self).status == old(self).status.flipped(),
            final(self).id == old(self).id,
            final(self).pub_id == old(self).pub_id,
            final(self).title == old(self).title,
            final(self).author == old(self).author,
            final(self).publisher_pub_id == old(self).publisher_pub_id,
            final(self).shop_pub_id == old(self).shop_pub_id,
            final(self).format == old(self).format,
            final(self).price == old(self).price,
            final(self).created_at == old(self).created_at,
            final(self).created_by == old(self).created_by,
            final(self).updated_by == updated_by,
    {
        self.status = match self.status {
            BookStatus::Unapplied => BookStatus::Applied,
            BookStatus::Applied => BookStatus::Unapplied,
        };
        self.update_audit(updated_by);
    }

    /// Refreshes the update audit stamp from the clock.
    fn update_audit(&mut self, updated_by: String)
        ensures
            final(self).id == old(self).id,
            final(self).pub_id == old(self).pub_id,
            final(self).title == old(self).title,
            final(self).author == old(self).author,
            final(self).publisher_pub_id == old(self).publisher_pub_id,
            final(self).shop_pub_id == old(self).shop_pub_id,
            final(self).status == old(self).status,
            final(self).format == old(self).format,
            final(self).price == old(self).price,
            final(self).created_at == old(self).created_at,
            final(self).created_by == old(self).created_by,
            final(self).updated_by == updated_by,
    {
        self.updated_at = stamp::now_timestamp();
        self.updated_by = updated_by;
    }
}

impl Clone for Book {
    /// An exact copy: the clone equals the original.
    fn clone(&self) -> (r: Self)
        ensures
            r == *self,
    {
        Book {
            id: self.id,
            pub_id: self.pub_id,
            title: self.title.clone(),
            author: self.author.clone(),
            publisher_pub_id: self.publisher_pub_id,
            shop_pub_id: self.shop_pub_id,
            status: self.status,
            format: self.format,
            price: self.price,
            created_at: self.created_at,
            updated_at: self.updated_at,
            created_by: self.created_by.clone(),
            updated_by: self.updated_by.clone(),
        }
    }
}

} // verus!
