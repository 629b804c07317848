use vstd::prelude::*;

use crate::domain::error::DomainError;

verus! {

/// An API-facing error kind, as the use-case layer reports it: a
/// missed lookup, an internal failure, a persistence failure, or a
/// domain error surfaced from one of the entities. Persistence
/// failures deliberately carry no detail.
#[derive(Debug)]
pub enum ApiError {
    NotFound(String),
    InternalServerError,
    DatabaseError,
    BookDomainError(DomainError),
    PublisherDomainError(DomainError),
    ShopDomainError(DomainError),
}

impl ApiError {
    /// The HTTP status code each error kind maps to: a missed lookup
    /// is 404, an internal or persistence failure is 500, and a
    /// domain error is the client's fault, 400.
    pub fn status_code(&self) -> (r: u16)
        ensures
            *self is NotFound ==> r == 404,
            *self is InternalServerError || *self is DatabaseError ==> r == 500,
            *self is BookDomainError || *self is PublisherDomainError || *self
                is ShopDomainError ==> r == 400,
    {
        match self {
            ApiError::NotFound(_) => 404,
            ApiError::InternalServerError | ApiError::DatabaseError => 500,
            ApiError::BookDomainError(_)
            | ApiError::PublisherDomainError(_)
            | ApiError::ShopDomainError(_) => 400,
        }
    }
}

/// An error as the HTTP layer renders it, wrapping the use-case
/// error kind.
pub struct AppError(pub ApiError);

impl AppError {
    /// The HTTP status code of the wrapped error.
    pub fn status_code(&self) -> (r: u16)
        ensures
            self.0 is NotFound ==> r == 404,
            self.0 is InternalServerError || self.0 is DatabaseError ==> r == 500,
            self.0 is BookDomainError || self.0 is PublisherDomainError || self.0
                is ShopDomainError ==> r == 400,
    {
        self.0.status_code()
    }

    /// The client-visible message: a missed lookup and a domain error
    /// report their own message, while internal and persistence
    /// failures leak nothing beyond a generic line.
    pub fn message(self) -> (r: String)
        ensures
            self.0 matches ApiError::NotFound(m) ==> r@ == m@,
            self.0 is InternalServerError || self.0 is DatabaseError ==> r@
                == "Internal Server Error"@,
            self.0 matches ApiError::BookDomainError(e) ==> domain_message_of(e, r@),
            self.0 matches ApiError::PublisherDomainError(e) ==> domain_message_of(e, r@),
            self.0 matches ApiError::ShopDomainError(e) ==> domain_message_of(e, r@),
    {
        match self.0 {
            ApiError::NotFound(m) => m,
            ApiError::InternalServerError | ApiError::DatabaseError => {
                "Internal Server Error".to_owned()
            },
            ApiError::BookDomainError(e) => e.message(),
            ApiError::PublisherDomainError(e) => e.message(),
            ApiError::ShopDomainError(e) => e.message(),
        }
    }
}

/// Whether `m` is the message the domain error `e` carries.
pub open spec fn domain_message_of(e: DomainError, m: Seq<char>) -> bool {
    match e {
        DomainError::InvalidFormat(t) => m == t@,
        DomainError::DomainRuleViolation(t) => m == t@,
    }
}

/// Wraps a use-case error for the HTTP layer.
pub fn map_error(e: ApiError) -> (r: AppError)
    ensures
        r.0 == e,
{
    AppError(e)
}

} // verus!
