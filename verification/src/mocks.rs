//! In-memory repositories, one per entity.
//!
//! Each store mirrors what the relational schema guarantees: internal
//! ids are assigned from a sequence and never reused, external ids
//! are unique, and publisher and shop names are unique. The stores
//! are the test implementations of the per-entity persistence
//! interface; the services are verified against their contracts.

use vstd::prelude::*;

use crate::domain::book::Book;
use crate::domain::publisher::Publisher;
use crate::domain::shop::Shop;

verus! {

/// A persistence failure: the kinds of error the relational schema
/// itself would raise.
#[derive(Clone, Copy, PartialEq, Eq, Structural, Debug)]
pub enum StoreError {
    /// A uniqueness constraint (external id or name) was violated.
    Conflict,
    /// The id sequence is used up.
    Exhausted,
    /// No row with the given internal id exists.
    Missing,
}

/// Whether some book in `s` carries the external id `pub_id`.
pub open spec fn has_book(s: Seq<Book>, pub_id: u128) -> bool {
    exists|i: int| 0 <= i < s.len() && (#[trigger] s[i]).pub_id == pub_id
}

/// Whether some book in `s` carries the internal id `id`.
pub open spec fn has_book_id(s: Seq<Book>, id: i32) -> bool {
    exists|i: int| 0 <= i < s.len() && (#[trigger] s[i]).id == id
}

/// Every book's internal id lies in `1 .. next_id`.
pub open spec fn book_ids_in_range(s: Seq<Book>, next_id: i32) -> bool {
    forall|i: int| 0 <= i < s.len() ==> 1 <= (#[trigger] s[i]).id < next_id
}

/// No two books share an internal id.
pub open spec fn book_ids_distinct(s: Seq<Book>) -> bool {
    forall|i: int, j: int|
        #![trigger s[i].id, s[j].id]
        0 <= i < j < s.len() ==> s[i].id != s[j].id
}

/// No two books share an external id.
pub open spec fn book_pub_ids_distinct(s: Seq<Book>) -> bool {
    forall|i: int, j: int|
        #![trigger s[i].pub_id, s[j].pub_id]
        0 <= i < j < s.len() ==> s[i].pub_id != s[j].pub_id
}

/// `item` with its internal id replaced by `id`.
pub open spec fn book_with_id(item: Book, id: i32) -> Book {
    Book { id, ..item }
}

/// An in-memory book repository: rows in insertion order plus the
/// next value of the id sequence.
pub struct MockBookRepository {
    pub items: Vec<Book>,
    pub next_id: i32,
}

impl MockBookRepository {
    /// The store invariant: a positive id sequence bounding every
    /// row's internal id, and distinct internal and external ids.
    pub open spec fn wf(&self) -> bool {
        &&& 1 <= self.next_id
        &&& book_ids_in_range(self.items@, self.next_id)
        &&& book_ids_distinct(self.items@)
        &&& book_pub_ids_distinct(self.items@)
    }

    /// An empty store.
    pub fn new() -> (s: Self)
        ensures
            s.wf(),
            s.items@.len() == 0,
            s.next_id == 1,
    {
        MockBookRepository { items: Vec::new(), next_id: 1 }
    }

    /// Every row, in insertion order.
    pub fn find_all(&self) -> (r: Vec<Book>)
        ensures
            r@ == self.items@,
    {
        let mut out: Vec<Book> = Vec::new();
        let mut i: usize = 0;
        while i < self.items.len()
            invariant
                i <= self.items.len(),
                out@ =~= self.items@.subrange(0, i as int),
            decreases self.items.len() - i,
        {
            out.push(self.items[i].clone());
            i = i + 1;
        }
        proof {
            assert(out@ =~= self.items@);
        }
        out
    }

    /// The row with the given external id, if any.
    pub fn find_by_pub_id(&self, pub_id: u128) -> (r: Option<Book>)
        ensures
            r is Some <==> has_book(self.items@, pub_id),
            r matches Some(b) ==> b.pub_id == pub_id && exists|i: int|
                0 <= i < self.items@.len() && #[trigger] self.items@[i] == b,
    {
        let mut i: usize = 0;
        while i < self.items.len()
            invariant
                i <= self.items.len(),
                forall|j: int| 0 <= j < i ==> (#[trigger] self.items@[j]).pub_id != pub_id,
            decreases self.items.len() - i,
        {
            if self.items[i].pub_id == pub_id {
                return Some(self.items[i].clone());
            }
            i = i + 1;
        }
        None
    }

    /// The position of the row with the given internal id, if any.
    fn index_of_id(&self, id: i32) -> (r: Option<usize>)
        ensures
            r matches Some(i) ==> 0 <= i < self.items@.len() && self.items@[i as int].id == id,
            r is None <==> !has_book_id(self.items@, id),
    {
        let mut i: usize = 0;
        while i < self.items.len()
            invariant
                i <= self.items.len(),
                forall|j: int| 0 <= j < i ==> (#[trigger] self.items@[j]).id != id,
            decreases self.items.len() - i,
        {
            if self.items[i].id == id {
                return Some(i);
            }
            i = i + 1;
        }
        None
    }

    /// Inserts a row, assigning the next internal id. Fails with a
    /// conflict when the external id is already present, and with
    /// exhaustion when the id sequence is used up; either way the
    /// store is unchanged.
    pub fn create(&mut self, item: Book) -> (r: Result<Book, StoreError>)
        requires
            old(self).wf(),
        ensures
            final(self).wf(),
            r is Ok <==> !has_book(old(self).items@, item.pub_id) && old(self).next_id
                < i32::MAX,
            r matches Ok(b) ==> {
                &&& b == book_with_id(item, old(self).next_id)
                &&& final(self).items@ == old(self).items@.push(b)
                &&& final(self).next_id == old(self).next_id + 1
            },
            r is Err ==> *final(self) == *old(self),
            r matches Err(e) ==> (e is Conflict <==> has_book(old(self).items@, item.pub_id)),
    {
        if self.find_by_pub_id(item.pub_id).is_some() {
            return Err(StoreError::Conflict);
        }
        if self.next_id == i32::MAX {
            return Err(StoreError::Exhausted);
        }
        let mut row = item;
        row.id = self.next_id;
        let created = row.clone();
        self.items.push(row);
        self.next_id = self.next_id + 1;
        Ok(created)
    }

    /// Replaces the row whose internal id matches `item.id`. Fails
    /// when no such row exists, or when the replacement's external id
    /// collides with a different row; either way the store is
    /// unchanged.
    pub fn update(&mut self, item: Book) -> (r: Result<Book, StoreError>)
        requires
            old(self).wf(),
        ensures
            final(self).wf(),
            final(self).next_id == old(self).next_id,
            r is Ok <==> has_book_id(old(self).items@, item.id) && (forall|j: int|
                0 <= j < old(self).items@.len() && (#[trigger] old(self).items@[j]).id != item.id
                    ==> old(self).items@[j].pub_id != item.pub_id),
            r matches Ok(b) ==> b == item && exists|i: int|
                {
                    &&& 0 <= i < old(self).items@.len()
                    &&& (#[trigger] old(self).items@[i]).id == item.id
                    &&& final(self).items@ == old(self).items@.update(i, item)
                },
            r is Err ==> *final(self) == *old(self),
            r matches Err(e) ==> (e is Missing <==> !has_book_id(old(self).items@, item.id)),
    {
        let i = match self.index_of_id(item.id) {
            Some(i) => i,
            None => {
                return Err(StoreError::Missing);
            },
        };
        let n = self.items.len();
        let mut j: usize = 0;
        while j < n
            invariant
                *self == *old(self),
                self.wf(),
                n == self.items.len(),
                j <= n,
                0 <= i < n,
                self.items@[i as int].id == item.id,
                forall|k: int|
                    0 <= k < j && (#[trigger] self.items@[k]).id != item.id ==> self.items@[
                        k
                    ].pub_id != item.pub_id,
            decreases n - j,
        {
            if self.items[j].id != item.id && self.items[j].pub_id == item.pub_id {
                return Err(StoreError::Conflict);
            }
            j = j + 1;
        }
        let updated = item.clone();
        self.items.set(i, item);
        Ok(updated)
    }

    /// Removes the row with the given internal id; fails, leaving the
    /// store unchanged, when no such row exists.
    pub fn delete(&mut self, id: i32) -> (r: Result<(), StoreError>)
        requires
            old(self).wf(),
        ensures
            final(self).wf(),
            final(self).next_id == old(self).next_id,
            r is Ok <==> has_book_id(old(self).items@, id),
            r is Ok ==> exists|i: int|
                {
                    &&& 0 <= i < old(self).items@.len()
                    &&& (#[trigger] old(self).items@[i]).id == id
                    &&& final(self).items@ == old(self).items@.remove(i)
                },
            r matches Err(e) ==> *final(self) == *old(self) && e is Missing,
    {
        let i = match self.index_of_id(id) {
            Some(i) => i,
            None => {
                return Err(StoreError::Missing);
            },
        };
        self.items.remove(i);
        Ok(())
    }
}


/// Whether some publisher in `s` carries the external id `pub_id`.
pub open spec fn has_publisher(s: Seq<Publisher>, pub_id: u128) -> bool {
    exists|i: int| 0 <= i < s.len() && (#[trigger] s[i]).pub_id == pub_id
}

/// Whether some publisher in `s` carries the internal id `id`.
pub open spec fn has_publisher_id(s: Seq<Publisher>, id: i32) -> bool {
    exists|i: int| 0 <= i < s.len() && (#[trigger] s[i]).id == id
}

/// Whether some publisher in `s` carries the name `name`.
pub open spec fn has_publisher_name(s: Seq<Publisher>, name: Seq<char>) -> bool {
    exists|i: int| 0 <= i < s.len() && (#[trigger] s[i]).name@ == name
}

/// Every publisher's internal id lies in `1 .. next_id`.
pub open spec fn publisher_ids_in_range(s: Seq<Publisher>, next_id: i32) -> bool {
    forall|i: int| 0 <= i < s.len() ==> 1 <= (#[trigger] s[i]).id < next_id
}

/// No two publishers share an internal id.
pub open spec fn publisher_ids_distinct(s: Seq<Publisher>) -> bool {
    forall|i: int, j: int|
        #![trigger s[i].id, s[j].id]
        0 <= i < j < s.len() ==> s[i].id != s[j].id
}

/// No two publishers share an external id.
pub open spec fn publisher_pub_ids_distinct(s: Seq<Publisher>) -> bool {
    forall|i: int, j: int|
        #![trigger s[i].pub_id, s[j].pub_id]
        0 <= i < j < s.len() ==> s[i].pub_id != s[j].pub_id
}

/// No two publishers share a name.
pub open spec fn publisher_names_distinct(s: Seq<Publisher>) -> bool {
    forall|i: int, j: int|
        #![trigger s[i].name, s[j].name]
        0 <= i < j < s.len() ==> s[i].name@ != s[j].name@
}

/// `item` with its internal id replaced by `id`.
pub open spec fn publisher_with_id(item: Publisher, id: i32) -> Publisher {
    Publisher { id, ..item }
}

/// An in-memory publisher repository: rows in insertion order plus
/// the next value of the id sequence.
pub struct MockPublisherRepository {
    pub items: Vec<Publisher>,
    pub next_id: i32,
}

impl MockPublisherRepository {
    /// The store invariant: a positive id sequence bounding every
    /// row's internal id, and distinct internal ids, external ids and
    /// names.
    pub open spec fn wf(&self) -> bool {
        &&& 1 <= self.next_id
        &&& publisher_ids_in_range(self.items@, self.next_id)
        &&& publisher_ids_distinct(self.items@)
        &&& publisher_pub_ids_distinct(self.items@)
        &&& publisher_names_distinct(self.items@)
    }

    /// An empty store.
    pub fn new() -> (s: Self)
        ensures
            s.wf(),
            s.items@.len() == 0,
            s.next_id == 1,
    {
        MockPublisherRepository { items: Vec::new(), next_id: 1 }
    }

    /// Every row, in insertion order.
    pub fn find_all(&self) -> (r: Vec<Publisher>)
        ensures
            r@ == self.items@,
    {
        let mut out: Vec<Publisher> = Vec::new();
        let mut i: usize = 0;
        while i < self.items.len()
            invariant
                i <= self.items.len(),
                out@ =~= self.items@.subrange(0, i as int),
            decreases self.items.len() - i,
        {
            out.push(self.items[i].clone());
            i = i + 1;
        }
        proof {
            assert(out@ =~= self.items@);
        }
        out
    }

    /// The row with the given external id, if any.
    pub fn find_by_pub_id(&self, pub_id: u128) -> (r: Option<Publisher>)
        ensures
            r is Some <==> has_publisher(self.items@, pub_id),
            r matches Some(p) ==> p.pub_id == pub_id && exists|i: int|
                0 <= i < self.items@.len() && #[trigger] self.items@[i] == p,
    {
        let mut i: usize = 0;
        while i < self.items.len()
            invariant
                i <= self.items.len(),
                forall|j: int| 0 <= j < i ==> (#[trigger] self.items@[j]).pub_id != pub_id,
            decreases self.items.len() - i,
        {
            if self.items[i].pub_id == pub_id {
                return Some(self.items[i].clone());
            }
            i = i + 1;
        }
        None
    }

    /// The position of the row with the given internal id, if any.
    fn index_of_id(&self, id: i32) -> (r: Option<usize>)
        ensures
            r matches Some(i) ==> 0 <= i < self.items@.len() && self.items@[i as int].id == id,
            r is None <==> !has_publisher_id(self.items@, id),
    {
        let mut i: usize = 0;
        while i < self.items.len()
            invariant
                i <= self.items.len(),
                forall|j: int| 0 <= j < i ==> (#[trigger] self.items@[j]).id != id,
            decreases self.items.len() - i,
        {
            if self.items[i].id == id {
                return Some(i);
            }
            i = i + 1;
        }
        None
    }

    /// Whether a row with the given name exists.
    fn name_taken(&self, name: &crate::domain::vo::PublisherName) -> (r: bool)
        ensures
            r == has_publisher_name(self.items@, name@),
    {
        let mut i: usize = 0;
        while i < self.items.len()
            invariant
                i <= self.items.len(),
                forall|j: int| 0 <= j < i ==> (#[trigger] self.items@[j]).name@ != name@,
            decreases self.items.len() - i,
        {
            if self.items[i].name.eq_value(name) {
                return true;
            }
            i = i + 1;
        }
        false
    }

    /// Inserts a row, assigning the next internal id. Fails with a
    /// conflict when the external id or the name is already present,
    /// and with exhaustion when the id sequence is used up; either
    /// way the store is unchanged.
    pub fn create(&mut self, item: Publisher) -> (r: Result<Publisher, StoreError>)
        requires
            old(self).wf(),
        ensures
            final(self).wf(),
            r is Ok <==> !has_publisher(old(self).items@, item.pub_id) && !has_publisher_name(
                old(self).items@,
                item.name@,
            ) && old(self).next_id < i32::MAX,
            r matches Ok(p) ==> {
                &&& p == publisher_with_id(item, old(self).next_id)
                &&& final(self).items@ == old(self).items@.push(p)
                &&& final(self).next_id == old(self).next_id + 1
            },
            r is Err ==> *final(self) == *old(self),
            r matches Err(e) ==> (e is Conflict <==> has_publisher(old(self).items@, item.pub_id)
                || has_publisher_name(old(self).items@, item.name@)),
    {
        if self.find_by_pub_id(item.pub_id).is_some() {
            return Err(StoreError::Conflict);
        }
        if self.name_taken(&item.name) {
            return Err(StoreError::Conflict);
        }
        if self.next_id == i32::MAX {
            return Err(StoreError::Exhausted);
        }
        let mut row = item;
        row.id = self.next_id;
        let created = row.clone();
        self.items.push(row);
        self.next_id = self.next_id + 1;
        Ok(created)
    }

    /// Replaces the row whose internal id matches `item.id`. Fails
    /// when no such row exists, or when the replacement's external id
    /// or name collides with a different row; either way the store is
    /// unchanged.
    pub fn update(&mut self, item: Publisher) -> (r: Result<Publisher, StoreError>)
        requires
            old(self).wf(),
        ensures
            final(self).wf(),
            final(self).next_id == old(self).next_id,
            r is Ok <==> has_publisher_id(old(self).items@, item.id) && (forall|j: int|
                0 <= j < old(self).items@.len() && (#[trigger] old(self).items@[j]).id != item.id
                    ==> old(self).items@[j].pub_id != item.pub_id && old(self).items@[j].name@
                    != item.name@),
            r matches Ok(p) ==> p == item && exists|i: int|
                {
                    &&& 0 <= i < old(self).items@.len()
                    &&& (#[trigger] old(self).items@[i]).id == item.id
                    &&& final(self).items@ == old(self).items@.update(i, item)
                },
            r is Err ==> *final(self) == *old(self),
            r matches Err(e) ==> (e is Missing <==> !has_publisher_id(old(self).items@, item.id)),
    {
        let i = match self.index_of_id(item.id) {
            Some(i) => i,
            None => {
                return Err(StoreError::Missing);
            },
        };
        let n = self.items.len();
        let mut j: usize = 0;
        while j < n
            invariant
                *self == *old(self),
                self.wf(),
                n == self.items.len(),
                j <= n,
                0 <= i < n,
                self.items@[i as int].id == item.id,
                forall|k: int|
                    0 <= k < j && (#[trigger] self.items@[k]).id != item.id ==> self.items@[
                        k
                    ].pub_id != item.pub_id && self.items@[k].name@ != item.name@,
            decreases n - j,
        {
            if self.items[j].id != item.id && (self.items[j].pub_id == item.pub_id
                || self.items[j].name.eq_value(&item.name)) {
                return Err(StoreError::Conflict);
            }
            j = j + 1;
        }
        let updated = item.clone();
        self.items.set(i, item);
        Ok(updated)
    }

    /// Removes the row with the given internal id; fails, leaving the
    /// store unchanged, when no such row exists.
    pub fn delete(&mut self, id: i32) -> (r: Result<(), StoreError>)
        requires
            old(self).wf(),
        ensures
            final(self).wf(),
            final(self).next_id == old(self).next_id,
            r is Ok <==> has_publisher_id(old(self).items@, id),
            r is Ok ==> exists|i: int|
                {
                    &&& 0 <= i < old(self).items@.len()
                    &&& (#[trigger] old(self).items@[i]).id == id
                    &&& final(self).items@ == old(self).items@.remove(i)
                },
            r matches Err(e) ==> *final(self) == *old(self) && e is Missing,
    {
        let i = match self.index_of_id(id) {
            Some(i) => i,
            None => {
                return Err(StoreError::Missing);
            },
        };
        self.items.remove(i);
        Ok(())
    }
}

/// Whether some shop in `s` carries the external id `pub_id`.
pub open spec fn has_shop(s: Seq<Shop>, pub_id: u128) -> bool {
    exists|i: int| 0 <= i < s.len() && (#[trigger] s[i]).pub_id == pub_id
}

/// Whether some shop in `s` carries the internal id `id`.
pub open spec fn has_shop_id(s: Seq<Shop>, id: i32) -> bool {
    exists|i: int| 0 <= i < s.len() && (#[trigger] s[i]).id == id
}

/// Whether some shop in `s` carries the name `name`.
pub open spec fn has_shop_name(s: Seq<Shop>, name: Seq<char>) -> bool {
    exists|i: int| 0 <= i < s.len() && (#[trigger] s[i]).name@ == name
}

/// Every shop's internal id lies in `1 .. next_id`.
pub open spec fn shop_ids_in_range(s: Seq<Shop>, next_id: i32) -> bool {
    forall|i: int| 0 <= i < s.len() ==> 1 <= (#[trigger] s[i]).id < next_id
}

/// No two shops share an internal id.
pub open spec fn shop_ids_distinct(s: Seq<Shop>) -> bool {
    forall|i: int, j: int|
        #![trigger s[i].id, s[j].id]
        0 <= i < j < s.len() ==> s[i].id != s[j].id
}

/// No two shops share an external id.
pub open spec fn shop_pub_ids_distinct(s: Seq<Shop>) -> bool {
    forall|i: int, j: int|
        #![trigger s[i].pub_id, s[j].pub_id]
        0 <= i < j < s.len() ==> s[i].pub_id != s[j].pub_id
}

/// No two shops share a name.
pub open spec fn shop_names_distinct(s: Seq<Shop>) -> bool {
    forall|i: int, j: int|
        #![trigger s[i].name, s[j].name]
        0 <= i < j < s.len() ==> s[i].name@ != s[j].name@
}

/// `item` with its internal id replaced by `id`.
pub open spec fn shop_with_id(item: Shop, id: i32) -> Shop {
    Shop { id, ..item }
}

/// An in-memory shop repository: rows in insertion order plus
/// the next value of the id sequence.
pub struct MockShopRepository {
    pub items: Vec<Shop>,
    pub next_id: i32,
}

impl MockShopRepository {
    /// The store invariant: a positive id sequence bounding every
    /// row's internal id, and distinct internal ids, external ids and
    /// names.
    pub open spec fn wf(&self) -> bool {
        &&& 1 <= self.next_id
        &&& shop_ids_in_range(self.items@, self.next_id)
        &&& shop_ids_distinct(self.items@)
        &&& shop_pub_ids_distinct(self.items@)
        &&& shop_names_distinct(self.items@)
    }

    /// An empty store.
    pub fn new() -> (s: Self)
        ensures
            s.wf(),
            s.items@.len() == 0,
            s.next_id == 1,
    {
        MockShopRepository { items: Vec::new(), next_id: 1 }
    }

    /// Every row, in insertion order.
    pub fn find_all(&self) -> (r: Vec<Shop>)
        ensures
            r@ == self.items@,
    {
        let mut out: Vec<Shop> = Vec::new();
        let mut i: usize = 0;
        while i < self.items.len()
            invariant
                i <= self.items.len(),
                out@ =~= self.items@.subrange(0, i as int),
            decreases self.items.len() - i,
        {
            out.push(self.items[i].clone());
            i = i + 1;
        }
        proof {
            assert(out@ =~= self.items@);
        }
        out
    }

    /// The row with the given external id, if any.
    pub fn find_by_pub_id(&self, pub_id: u128) -> (r: Option<Shop>)
        ensures
            r is Some <==> has_shop(self.items@, pub_id),
            r matches Some(p) ==> p.pub_id == pub_id && exists|i: int|
                0 <= i < self.items@.len() && #[trigger] self.items@[i] == p,
    {
        let mut i: usize = 0;
        while i < self.items.len()
            invariant
                i <= self.items.len(),
                forall|j: int| 0 <= j < i ==> (#[trigger] self.items@[j]).pub_id != pub_id,
            decreases self.items.len() - i,
        {
            if self.items[i].pub_id == pub_id {
                return Some(self.items[i].clone());
            }
            i = i + 1;
        }
        None
    }

    /// The position of the row with the given internal id, if any.
    fn index_of_id(&self, id: i32) -> (r: Option<usize>)
        ensures
            r matches Some(i) ==> 0 <= i < self.items@.len() && self.items@[i as int].id == id,
            r is None <==> !has_shop_id(self.items@, id),
    {
        let mut i: usize = 0;
        while i < self.items.len()
            invariant
                i <= self.items.len(),
                forall|j: int| 0 <= j < i ==> (#[trigger] self.items@[j]).id != id,
            decreases self.items.len() - i,
        {
            if self.items[i].id == id {
                return Some(i);
            }
            i = i + 1;
        }
        None
    }

    /// Whether a row with the given name exists.
    fn name_taken(&self, name: &crate::domain::vo::ShopName) -> (r: bool)
        ensures
            r == has_shop_name(self.items@, name@),
    {
        let mut i: usize = 0;
        while i < self.items.len()
            invariant
                i <= self.items.len(),
                forall|j: int| 0 <= j < i ==> (#[trigger] self.items@[j]).name@ != name@,
            decreases self.items.len() - i,
        {
            if self.items[i].name.eq_value(name) {
                return true;
            }
            i = i + 1;
        }
        false
    }

    /// Inserts a row, assigning the next internal id. Fails with a
    /// conflict when the external id or the name is already present,
    /// and with exhaustion when the id sequence is used up; either
    /// way the store is unchanged.
    pub fn create(&mut self, item: Shop) -> (r: Result<Shop, StoreError>)
        requires
            old(self).wf(),
        ensures
            final(self).wf(),
            r is Ok <==> !has_shop(old(self).items@, item.pub_id) && !has_shop_name(
                old(self).items@,
                item.name@,
            ) && old(self).next_id < i32::MAX,
            r matches Ok(p) ==> {
                &&& p == shop_with_id(item, old(self).next_id)
                &&& final(self).items@ == old(self).items@.push(p)
                &&& final(self).next_id == old(self).next_id + 1
            },
            r is Err ==> *final(self) == *old(self),
            r matches Err(e) ==> (e is Conflict <==> has_shop(old(self).items@, item.pub_id)
                || has_shop_name(old(self).items@, item.name@)),
    {
        if self.find_by_pub_id(item.pub_id).is_some() {
            return Err(StoreError::Conflict);
        }
        if self.name_taken(&item.name) {
            return Err(StoreError::Conflict);
        }
        if self.next_id == i32::MAX {
            return Err(StoreError::Exhausted);
        }
        let mut row = item;
        row.id = self.next_id;
        let created = row.clone();
        self.items.push(row);
        self.next_id = self.next_id + 1;
        Ok(created)
    }

    /// Replaces the row whose internal id matches `item.id`. Fails
    /// when no such row exists, or when the replacement's external id
    /// or name collides with a different row; either way the store is
    /// unchanged.
    pub fn update(&mut self, item: Shop) -> (r: Result<Shop, StoreError>)
        requires
            old(self).wf(),
        ensures
            final(self).wf(),
            final(self).next_id == old(self).next_id,
            r is Ok <==> has_shop_id(old(self).items@, item.id) && (forall|j: int|
                0 <= j < old(self).items@.len() && (#[trigger] old(self).items@[j]).id != item.id
                    ==> old(self).items@[j].pub_id != item.pub_id && old(self).items@[j].name@
                    != item.name@),
            r matches Ok(p) ==> p == item && exists|i: int|
                {
                    &&& 0 <= i < old(self).items@.len()
                    &&& (#[trigger] old(self).items@[i]).id == item.id
                    &&& final(self).items@ == old(self).items@.update(i, item)
                },
            r is Err ==> *final(self) == *old(self),
            r matches Err(e) ==> (e is Missing <==> !has_shop_id(old(self).items@, item.id)),
    {
        let i = match self.index_of_id(item.id) {
            Some(i) => i,
            None => {
                return Err(StoreError::Missing);
            },
        };
        let n = self.items.len();
        let mut j: usize = 0;
        while j < n
            invariant
                *self == *old(self),
                self.wf(),
                n == self.items.len(),
                j <= n,
                0 <= i < n,
                self.items@[i as int].id == item.id,
                forall|k: int|
                    0 <= k < j && (#[trigger] self.items@[k]).id != item.id ==> self.items@[
                        k
                    ].pub_id != item.pub_id && self.items@[k].name@ != item.name@,
            decreases n - j,
        {
            if self.items[j].id != item.id && (self.items[j].pub_id == item.pub_id
                || self.items[j].name.eq_value(&item.name)) {
                return Err(StoreError::Conflict);
            }
            j = j + 1;
        }
        let updated = item.clone();
        self.items.set(i, item);
        Ok(updated)
    }

    /// Removes the row with the given internal id; fails, leaving the
    /// store unchanged, when no such row exists.
    pub fn delete(&mut self, id: i32) -> (r: Result<(), StoreError>)
        requires
            old(self).wf(),
        ensures
            final(self).wf(),
            final(self).next_id == old(self).next_id,
            r is Ok <==> has_shop_id(old(self).items@, id),
            r is Ok ==> exists|i: int|
                {
                    &&& 0 <= i < old(self).items@.len()
                    &&& (#[trigger] old(self).items@[i]).id == id
                    &&& final(self).items@ == old(self).items@.remove(i)
                },
            r matches Err(e) ==> *final(self) == *old(self) && e is Missing,
    {
        let i = match self.index_of_id(id) {
            Some(i) => i,
            None => {
                return Err(StoreError::Missing);
            },
        };
        self.items.remove(i);
        Ok(())
    }
}

} // verus!
