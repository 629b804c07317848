//! A small library for a book-catalogue service: value objects with
//! length and range invariants, entities with audit metadata and a
//! two-state status machine on books, in-memory stores mirroring the
//! relational schema, and use-case services that orchestrate
//! validation, cross-entity lookups and persistence.

pub mod domain;
pub mod mocks;
pub mod stamp;
pub mod usecase;

use vstd::prelude::*;

verus! {

/// The application state handed to the HTTP layer: one use-case
/// service per entity, each owning its repository.
pub struct AppState {
    pub book_usecase: usecase::book::Service,
    pub publisher_usecase: usecase::publisher::Service,
    pub shop_usecase: usecase::shop::Service,
}

impl AppState {
    /// A fresh application state over empty, well-formed stores.
    pub fn new() -> (s: AppState)
        ensures
            s.book_usecase.repo.wf(),
            s.publisher_usecase.repo.wf(),
            s.shop_usecase.repo.wf(),
            s.book_usecase.repo.items@.len() == 0,
            s.publisher_usecase.repo.items@.len() == 0,
            s.shop_usecase.repo.items@.len() == 0,
            s.book_usecase.repo.next_id == 1,
            s.publisher_usecase.repo.next_id == 1,
            s.shop_usecase.repo.next_id == 1,
    {
        AppState {
            book_usecase: usecase::book::Service::new(mocks::MockBookRepository::new()),
            publisher_usecase: usecase::publisher::Service::new(
                mocks::MockPublisherRepository::new(),
            ),
            shop_usecase: usecase::shop::Service::new(mocks::MockShopRepository::new()),
        }
    }
}

} // verus!
