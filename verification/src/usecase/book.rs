use vstd::prelude::*;

use crate::domain::book::{Book, BookStatus};
use crate::domain::publisher::Publisher;
use crate::domain::shop::Shop;
use crate::domain::vo::{BookAuthor, BookFormat, BookPrice, BookTitle, MAX_TEXT_LEN};
use crate::mocks::{
    book_pub_ids_distinct, has_book, has_book_id, has_publisher, has_shop, MockBookRepository,
    MockPublisherRepository, MockShopRepository,
};
use crate::stamp;
use crate::usecase::error::ApiError;

verus! {

/// The request body for creating a book. References name the
/// publisher (required) and the shop (optional) by their external
/// ids.
pub struct CreateDto {
    pub title: String,
    pub author: String,
    pub publisher_pub_id: u128,
    pub shop_pub_id: Option<u128>,
    pub format: BookFormat,
    pub price: i32,
}

/// The request body for updating a book's mutable fields.
pub struct UpdateDto {
    pub title: String,
    pub author: String,
    pub publisher_pub_id: u128,
    pub shop_pub_id: Option<u128>,
    pub format: BookFormat,
    pub price: i32,
}

/// The response view of a book. Only external ids cross this
/// boundary; the internal sequence id stays hidden.
#[derive(Debug)]
pub struct ResponseDto {
    pub pub_id: u128,
    pub title: String,
    pub author: String,
    pub publisher_pub_id: u128,
    pub shop_pub_id: Option<u128>,
    pub status: BookStatus,
    pub format: BookFormat,
    pub price: i32,
}

/// Whether the title, author and price satisfy the value objects'
/// construction rules.
pub open spec fn valid_book_fields(title: Seq<char>, author: Seq<char>, price: i32) -> bool {
    &&& title.len() <= MAX_TEXT_LEN
    &&& author.len() <= MAX_TEXT_LEN
    &&& price >= 0
}

/// Whether `d` is the response view of the stored book `b`.
pub open spec fn book_response_of(b: Book, d: ResponseDto) -> bool {
    &&& d.pub_id == b.pub_id
    &&& d.title@ == b.title@
    &&& d.author@ == b.author@
    &&& d.publisher_pub_id == b.publisher_pub_id
    &&& d.shop_pub_id == b.shop_pub_id
    &&& d.status == b.status
    &&& d.format == b.format
    &&& d.price == b.price@
}

/// Whether `b` is the row a successful create of `dto` leaves
/// behind, under external id `pub_id` and internal id `id`: the
/// request's field values, unapplied status, and a fresh audit.
pub open spec fn created_book(dto: CreateDto, pub_id: u128, id: i32, b: Book) -> bool {
    &&& b.id == id
    &&& b.pub_id == pub_id
    &&& b.title@ == dto.title@
    &&& b.author@ == dto.author@
    &&& b.publisher_pub_id == dto.publisher_pub_id
    &&& b.shop_pub_id == dto.shop_pub_id
    &&& b.status == BookStatus::Unapplied
    &&& b.format == dto.format
    &&& b.price@ == dto.price
    &&& b.created_at == b.updated_at
    &&& b.created_by@ == "test player"@
    &&& b.updated_by == b.created_by
}

/// Whether `b` is the row a successful update of `b0` by `dto`
/// leaves behind: the request's field values and a new update stamp
/// over an unchanged identity, status and creation audit.
pub open spec fn updated_book(b0: Book, dto: UpdateDto, b: Book) -> bool {
    &&& b.id == b0.id
    &&& b.pub_id == b0.pub_id
    &&& b.title@ == dto.title@
    &&& b.author@ == dto.author@
    &&& b.publisher_pub_id == dto.publisher_pub_id
    &&& b.shop_pub_id == dto.shop_pub_id
    &&& b.status == b0.status
    &&& b.format == dto.format
    &&& b.price@ == dto.price
    &&& b.created_at == b0.created_at
    &&& b.created_by == b0.created_by
    &&& b.updated_by@ == "test player"@
}

/// Whether `b` is the row a status toggle of `b0` leaves behind: the
/// flipped status and a new update stamp over otherwise unchanged
/// fields.
pub open spec fn switched_book(b0: Book, b: Book) -> bool {
    &&& b.id == b0.id
    &&& b.pub_id == b0.pub_id
    &&& b.title@ == b0.title@
    &&& b.author@ == b0.author@
    &&& b.publisher_pub_id == b0.publisher_pub_id
    &&& b.shop_pub_id == b0.shop_pub_id
    &&& b.status == b0.status.flipped()
    &&& b.format == b0.format
    &&& b.price == b0.price
    &&& b.created_at == b0.created_at
    &&& b.created_by == b0.created_by
    &&& b.updated_by@ == "test player"@
}

/// Whether the optional shop reference of a create request resolves:
/// either absent, or naming a stored shop.
pub open spec fn shop_ref_ok(shops: Seq<Shop>, r: Option<u128>) -> bool {
    match r {
        Some(sp) => has_shop(shops, sp),
        None => true,
    }
}

/// Whether the references of an update request resolve against the
/// loaded book `b0`: each is re-resolved only if it changed.
pub open spec fn update_refs_ok(
    b0: Book,
    publishers: Seq<Publisher>,
    shops: Seq<Shop>,
    dto: UpdateDto,
) -> bool {
    &&& (dto.publisher_pub_id != b0.publisher_pub_id ==> has_publisher(
        publishers,
        dto.publisher_pub_id,
    ))
    &&& (match dto.shop_pub_id {
        Some(sp) => b0.shop_pub_id == Some(sp) || has_shop(shops, sp),
        None => true,
    })
}

/// The book use-case service, owning its repository. Cross-entity
/// lookups borrow the publisher and shop repositories.
pub struct Service {
    pub repo: MockBookRepository,
}

impl Service {
    /// A service over the given repository.
    pub fn new(repo: MockBookRepository) -> (s: Self)
        ensures
            s.repo == repo,
    {
        Service { repo }
    }

    /// The response view of one stored row.
    fn row_response(b: &Book) -> (d: ResponseDto)
        ensures
            book_response_of(*b, d),
    {
        ResponseDto {
            pub_id: b.pub_id,
            title: b.title.clone_value(),
            author: b.author.clone_value(),
            publisher_pub_id: b.publisher_pub_id,
            shop_pub_id: b.shop_pub_id,
            status: b.status,
            format: b.format,
            price: b.price.value(),
        }
    }

    /// The response views of every stored book, in insertion order.
    pub fn get_all(&self) -> (r: Result<Vec<ResponseDto>, ApiError>)
        ensures
            r is Ok,
            r matches Ok(ds) ==> ds@.len() == self.repo.items@.len() && forall|i: int|
                0 <= i < ds@.len() ==> book_response_of(self.repo.items@[i], #[trigger] ds@[i]),
    {
        let mut out: Vec<ResponseDto> = Vec::new();
        let mut i: usize = 0;
        while i < self.repo.items.len()
            invariant
                i <= self.repo.items.len(),
                out@.len() == i,
                forall|k: int|
                    0 <= k < i ==> book_response_of(self.repo.items@[k], #[trigger] out@[k]),
            decreases self.repo.items.len() - i,
        {
            let d = Self::row_response(&self.repo.items[i]);
            out.push(d);
            i = i + 1;
        }
        Ok(out)
    }

    /// The response view of the book with the given external id, or
    /// not-found when no such book is stored.
    pub fn get(&self, pub_id: u128) -> (r: Result<ResponseDto, ApiError>)
        ensures
            r is Ok <==> has_book(self.repo.items@, pub_id),
            r matches Ok(d) ==> d.pub_id == pub_id && exists|i: int|
                0 <= i < self.repo.items@.len() && (#[trigger] self.repo.items@[i]).pub_id
                    == pub_id && book_response_of(self.repo.items@[i], d),
            r matches Err(e) ==> e is NotFound,
    {
        match self.repo.find_by_pub_id(pub_id) {
            Some(b) => Ok(Self::row_response(&b)),
            None => Err(ApiError::NotFound("Book not found".to_owned())),
        }
    }

    /// Validates the value objects, resolves the publisher (and, if
    /// given, the shop) by external id, creates the book under a
    /// fresh external id with unapplied status and persists it.
    /// Validation and resolution failures leave the store untouched:
    /// nothing is written before every check has passed.
    pub fn create(
        &mut self,
        publishers: &MockPublisherRepository,
        shops: &MockShopRepository,
        dto: CreateDto,
    ) -> (r: Result<ResponseDto, ApiError>)
        requires
            old(self).repo.wf(),
        ensures
            final(self).repo.wf(),
            r is Err ==> final(self).repo == old(self).repo,
            !valid_book_fields(dto.title@, dto.author@, dto.price) ==> (r matches Err(
                ApiError::BookDomainError(e),
            ) && e is InvalidFormat),
            valid_book_fields(dto.title@, dto.author@, dto.price) && !has_publisher(
                publishers.items@,
                dto.publisher_pub_id,
            ) ==> (r matches Err(e) && e is NotFound),
            valid_book_fields(dto.title@, dto.author@, dto.price) && has_publisher(
                publishers.items@,
                dto.publisher_pub_id,
            ) && !shop_ref_ok(shops.items@, dto.shop_pub_id) ==> (r matches Err(e) && e
                is NotFound),
            r matches Ok(d) ==> {
                &&& valid_book_fields(dto.title@, dto.author@, dto.price)
                &&& has_publisher(publishers.items@, dto.publisher_pub_id)
                &&& shop_ref_ok(shops.items@, dto.shop_pub_id)
                &&& !has_book(old(self).repo.items@, d.pub_id)
                &&& final(self).repo.items@.len() == old(self).repo.items@.len() + 1
                &&& final(self).repo.items@ == old(self).repo.items@.push(
                    final(self).repo.items@.last(),
                )
                &&& created_book(dto, d.pub_id, old(self).repo.next_id, final(self).repo.items@.last())
                &&& book_response_of(final(self).repo.items@.last(), d)
            },
    {
        let pub_id = stamp::new_external_id();
        self.create_with_id(publishers, shops, dto, pub_id)
    }

    /// The create flow once the fresh external id is fixed: succeeds
    /// exactly when the fields are valid, the references resolve,
    /// the external id is not already stored, and the id sequence is
    /// not used up.
    pub fn create_with_id(
        &mut self,
        publishers: &MockPublisherRepository,
        shops: &MockShopRepository,
        dto: CreateDto,
        pub_id: u128,
    ) -> (r: Result<ResponseDto, ApiError>)
        requires
            old(self).repo.wf(),
        ensures
            final(self).repo.wf(),
            r is Err ==> final(self).repo == old(self).repo,
            r is Ok <==> {
                &&& valid_book_fields(dto.title@, dto.author@, dto.price)
                &&& has_publisher(publishers.items@, dto.publisher_pub_id)
                &&& shop_ref_ok(shops.items@, dto.shop_pub_id)
                &&& !has_book(old(self).repo.items@, pub_id)
                &&& old(self).repo.next_id < i32::MAX
            },
            !valid_book_fields(dto.title@, dto.author@, dto.price) ==> (r matches Err(
                ApiError::BookDomainError(e),
            ) && e is InvalidFormat),
            valid_book_fields(dto.title@, dto.author@, dto.price) && !has_publisher(
                publishers.items@,
                dto.publisher_pub_id,
            ) ==> (r matches Err(e) && e is NotFound),
            valid_book_fields(dto.title@, dto.author@, dto.price) && has_publisher(
                publishers.items@,
                dto.publisher_pub_id,
            ) && !shop_ref_ok(shops.items@, dto.shop_pub_id) ==> (r matches Err(e) && e
                is NotFound),
            valid_book_fields(dto.title@, dto.author@, dto.price) && has_publisher(
                publishers.items@,
                dto.publisher_pub_id,
            ) && shop_ref_ok(shops.items@, dto.shop_pub_id) && r is Err ==> (r matches Err(e) && e
                is DatabaseError),
            r matches Ok(d) ==> {
                &&& d.pub_id == pub_id
                &&& final(self).repo.items@.len() == old(self).repo.items@.len() + 1
                &&& final(self).repo.items@ == old(self).repo.items@.push(
                    final(self).repo.items@.last(),
                )
                &&& created_book(dto, pub_id, old(self).repo.next_id, final(self).repo.items@.last())
                &&& book_response_of(final(self).repo.items@.last(), d)
            },
    {
        let title = match BookTitle::new(dto.title) {
            Ok(t) => t,
            Err(e) => {
                return Err(ApiError::BookDomainError(e));
            },
        };
        let author = match BookAuthor::new(dto.author) {
            Ok(a) => a,
            Err(e) => {
                return Err(ApiError::BookDomainError(e));
            },
        };
        let price = match BookPrice::new(dto.price) {
            Ok(p) => p,
            Err(e) => {
                return Err(ApiError::BookDomainError(e));
            },
        };
        if publishers.find_by_pub_id(dto.publisher_pub_id).is_none() {
            return Err(ApiError::NotFound("Publisher not found".to_owned()));
        }
        let shop_ref = match dto.shop_pub_id {
            Some(sp) => {
                if shops.find_by_pub_id(sp).is_none() {
                    return Err(ApiError::NotFound("Shop not found".to_owned()));
                }
                Some(sp)
            },
            None => None,
        };
        let book = Book::new(
            pub_id,
            title,
            author,
            dto.publisher_pub_id,
            shop_ref,
            dto.format,
            price,
            "test player".to_owned(),
        );
        match self.repo.create(book) {
            Ok(created) => Ok(Self::row_response(&created)),
            Err(_) => Err(ApiError::DatabaseError),
        }
    }

    /// Loads the book by external id, re-validates the value
    /// objects, re-resolves the publisher and shop references only
    /// where they changed, applies the domain update (refused while
    /// the book is applied) and persists it. On any failure the
    /// store is unchanged.
    pub fn update(
        &mut self,
        publishers: &MockPublisherRepository,
        shops: &MockShopRepository,
        pub_id: u128,
        dto: UpdateDto,
    ) -> (r: Result<ResponseDto, ApiError>)
        requires
            old(self).repo.wf(),
        ensures
            final(self).repo.wf(),
            r is Err ==> final(self).repo == old(self).repo,
            r is Ok <==> exists|i: int|
                {
                    &&& 0 <= i < old(self).repo.items@.len()
                    &&& (#[trigger] old(self).repo.items@[i]).pub_id == pub_id
                    &&& valid_book_fields(dto.title@, dto.author@, dto.price)
                    &&& update_refs_ok(old(self).repo.items@[i], publishers.items@, shops.items@, dto)
                    &&& old(self).repo.items@[i].status == BookStatus::Unapplied
                },
            !has_book(old(self).repo.items@, pub_id) ==> (r matches Err(e) && e is NotFound),
            has_book(old(self).repo.items@, pub_id) && !valid_book_fields(
                dto.title@,
                dto.author@,
                dto.price,
            ) ==> (r matches Err(ApiError::BookDomainError(e)) && e is InvalidFormat),
            forall|i: int|
                0 <= i < old(self).repo.items@.len() && (#[trigger] old(self).repo.items@[i]).pub_id
                    == pub_id && valid_book_fields(dto.title@, dto.author@, dto.price)
                    && !update_refs_ok(old(self).repo.items@[i], publishers.items@, shops.items@, dto)
                    ==> (r matches Err(e) && e is NotFound),
            forall|i: int|
                0 <= i < old(self).repo.items@.len() && (#[trigger] old(self).repo.items@[i]).pub_id
                    == pub_id && valid_book_fields(dto.title@, dto.author@, dto.price)
                    && update_refs_ok(old(self).repo.items@[i], publishers.items@, shops.items@, dto)
                    && old(self).repo.items@[i].status == BookStatus::Applied ==> (r matches Err(
                    ApiError::BookDomainError(e),
                ) && e is DomainRuleViolation),
            r matches Ok(d) ==> d.pub_id == pub_id && exists|i: int|
                {
                    &&& 0 <= i < old(self).repo.items@.len()
                    &&& (#[trigger] old(self).repo.items@[i]).pub_id == pub_id
                    &&& final(self).repo.items@ == old(self).repo.items@.update(
                        i,
                        final(self).repo.items@[i],
                    )
                    &&& updated_book(old(self).repo.items@[i], dto, final(self).repo.items@[i])
                    &&& book_response_of(final(self).repo.items@[i], d)
                },
    {
        let mut book = match self.repo.find_by_pub_id(pub_id) {
            Some(b) => b,
            None => {
                return Err(ApiError::NotFound("Book not found".to_owned()));
            },
        };
        let title = match BookTitle::new(dto.title) {
            Ok(t) => t,
            Err(e) => {
                return Err(ApiError::BookDomainError(e));
            },
        };
        let author = match BookAuthor::new(dto.author) {
            Ok(a) => a,
            Err(e) => {
                return Err(ApiError::BookDomainError(e));
            },
        };
        let price = match BookPrice::new(dto.price) {
            Ok(p) => p,
            Err(e) => {
                return Err(ApiError::BookDomainError(e));
            },
        };
        if dto.publisher_pub_id != book.publisher_pub_id {
            if publishers.find_by_pub_id(dto.publisher_pub_id).is_none() {
                return Err(ApiError::NotFound("Publisher not found".to_owned()));
            }
        }
        let shop_ref = match dto.shop_pub_id {
            Some(sp) => {
                let unchanged = match book.shop_pub_id {
                    Some(cur) => cur == sp,
                    None => false,
                };
                if !unchanged {
                    if shops.find_by_pub_id(sp).is_none() {
                        return Err(ApiError::NotFound("Shop not found".to_owned()));
                    }
                }
                Some(sp)
            },
            None => None,
        };
        match book.update(
            title,
            author,
            dto.publisher_pub_id,
            shop_ref,
            dto.format,
            price,
            "test player".to_owned(),
        ) {
            Ok(()) => (),
            Err(e) => {
                return Err(ApiError::BookDomainError(e));
            },
        }
        match self.repo.update(book) {
            Ok(updated) => Ok(Self::row_response(&updated)),
            Err(_) => Err(ApiError::DatabaseError),
        }
    }

    /// Loads the book by external id and toggles its status: the
    /// toggle has no guard, so it succeeds whenever the book exists,
    /// whatever the prior state.
    pub fn switch_status(&mut self, pub_id: u128) -> (r: Result<ResponseDto, ApiError>)
        requires
            old(self).repo.wf(),
        ensures
            final(self).repo.wf(),
            r is Err ==> final(self).repo == old(self).repo,
            r is Ok <==> has_book(old(self).repo.items@, pub_id),
            r matches Err(e) ==> e is NotFound,
            r matches Ok(d) ==> d.pub_id == pub_id && exists|i: int|
                {
                    &&& 0 <= i < old(self).repo.items@.len()
                    &&& (#[trigger] old(self).repo.items@[i]).pub_id == pub_id
                    &&& final(self).repo.items@ == old(self).repo.items@.update(
                        i,
                        final(self).repo.items@[i],
                    )
                    &&& switched_book(old(self).repo.items@[i], final(self).repo.items@[i])
                    &&& book_response_of(final(self).repo.items@[i], d)
                },
    {
        let mut book = match self.repo.find_by_pub_id(pub_id) {
            Some(b) => b,
            None => {
                return Err(ApiError::NotFound("Book not found".to_owned()));
            },
        };
        book.switch_status("test player".to_owned());
        match self.repo.update(book) {
            Ok(updated) => Ok(Self::row_response(&updated)),
            Err(_) => Err(ApiError::DatabaseError),
        }
    }

    /// Loads the book by external id and removes it; a missed lookup
    /// is not-found. After a successful delete no book with this
    /// external id remains.
    pub fn delete(&mut self, pub_id: u128) -> (r: Result<(), ApiError>)
        requires
            old(self).repo.wf(),
        ensures
            final(self).repo.wf(),
            r is Err ==> final(self).repo == old(self).repo,
            r is Ok <==> has_book(old(self).repo.items@, pub_id),
            r matches Err(e) ==> e is NotFound,
            r is Ok ==> exists|i: int|
                {
                    &&& 0 <= i < old(self).repo.items@.len()
                    &&& (#[trigger] old(self).repo.items@[i]).pub_id == pub_id
                    &&& final(self).repo.items@ == old(self).repo.items@.remove(i)
                },
            r is Ok ==> !has_book(final(self).repo.items@, pub_id),
    {
        let book = match self.repo.find_by_pub_id(pub_id) {
            Some(b) => b,
            None => {
                return Err(ApiError::NotFound("Book not found".to_owned()));
            },
        };
        let ghost pre = self.repo.items@;
        proof {
            let j = choose|j: int| 0 <= j < pre.len() && pre[j] == book;
            assert(pre[j].id == book.id);
            assert(has_book_id(pre, book.id));
        }
        match self.repo.delete(book.id) {
            Ok(()) => {
                proof {
                    let j = choose|j: int| 0 <= j < pre.len() && pre[j] == book;
                    let i = choose|i: int|
                        0 <= i < pre.len() && pre[i].id == book.id && self.repo.items@
                            == pre.remove(i);
                    assert(i == j);
                    assert forall|k: int|
                        0 <= k < self.repo.items@.len() implies (#[trigger] self.repo.items@[
                        k
                    ]).pub_id != pub_id by {
                        if k < i {
                            assert(self.repo.items@[k] == pre[k]);
                        } else {
                            assert(self.repo.items@[k] == pre[k + 1]);
                        }
                    }
                }
                Ok(())
            },
            Err(_) => Err(ApiError::InternalServerError),
        }
    }
}


/// Law: a book just created is found by its external id with the
/// request's field values and unapplied status. The premises are
/// what a successful create ensures of the store, and the
/// conclusion covers whatever row a fetch by that id returns.
pub proof fn lemma_create_then_get(
    pre: Seq<Book>,
    post: Seq<Book>,
    dto: CreateDto,
    d: ResponseDto,
    id: i32,
)
    requires
        post.len() == pre.len() + 1,
        post == pre.push(post[pre.len() as int]),
        created_book(dto, d.pub_id, id, post[pre.len() as int]),
        !has_book(pre, d.pub_id),
    ensures
        has_book(post, d.pub_id),
        forall|i: int|
            0 <= i < post.len() && (#[trigger] post[i]).pub_id == d.pub_id ==> {
                &&& post[i].title@ == dto.title@
                &&& post[i].author@ == dto.author@
                &&& post[i].publisher_pub_id == dto.publisher_pub_id
                &&& post[i].shop_pub_id == dto.shop_pub_id
                &&& post[i].format == dto.format
                &&& post[i].price@ == dto.price
                &&& post[i].status == BookStatus::Unapplied
            },
{
    let n = pre.len() as int;
    assert(post[n].pub_id == d.pub_id);
    assert(has_book(post, d.pub_id));
    assert forall|i: int| 0 <= i < post.len() && (#[trigger] post[i]).pub_id == d.pub_id implies {
        &&& post[i].title@ == dto.title@
        &&& post[i].author@ == dto.author@
        &&& post[i].publisher_pub_id == dto.publisher_pub_id
        &&& post[i].shop_pub_id == dto.shop_pub_id
        &&& post[i].format == dto.format
        &&& post[i].price@ == dto.price
        &&& post[i].status == BookStatus::Unapplied
    } by {
        if i < n {
            assert(post[i] == pre[i]);
            assert(has_book(pre, d.pub_id));
        } else {
            assert(i == n);
        }
    }
}

/// Law: once a delete has removed the row carrying an external id,
/// no book with that id remains, so a fetch by the same id misses.
/// The premises are what a successful delete ensures of a
/// well-formed store.
pub proof fn lemma_delete_then_get(pre: Seq<Book>, post: Seq<Book>, pub_id: u128, i: int)
    requires
        book_pub_ids_distinct(pre),
        0 <= i < pre.len(),
        pre[i].pub_id == pub_id,
        post == pre.remove(i),
    ensures
        !has_book(post, pub_id),
{
    assert forall|k: int| 0 <= k < post.len() implies (#[trigger] post[k]).pub_id != pub_id by {
        if k < i {
            assert(post[k] == pre[k]);
        } else {
            assert(post[k] == pre[k + 1]);
        }
    }
}

} // verus!
