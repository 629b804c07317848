use bookstore::domain::error::DomainError;
use bookstore::usecase::error::{map_error, ApiError, AppError};

#[test]
fn not_found_maps_to_404_with_its_message() {
    let e = AppError(ApiError::NotFound("Book not found".to_string()));
    assert_eq!(e.status_code(), 404);
    assert_eq!(e.message(), "Book not found");
}

#[test]
fn internal_failures_map_to_500_and_leak_nothing() {
    let db = AppError(ApiError::DatabaseError);
    assert_eq!(db.status_code(), 500);
    assert_eq!(db.message(), "Internal Server Error");

    let internal = AppError(ApiError::InternalServerError);
    assert_eq!(internal.status_code(), 500);
    assert_eq!(internal.message(), "Internal Server Error");
}

#[test]
fn domain_errors_map_to_400_with_their_message() {
    let invalid = AppError(ApiError::BookDomainError(DomainError::InvalidFormat(
        "Title must be 32 chars or less".to_string(),
    )));
    assert_eq!(invalid.status_code(), 400);
    assert_eq!(invalid.message(), "Title must be 32 chars or less");

    let violation = AppError(ApiError::BookDomainError(DomainError::DomainRuleViolation(
        "An applied book cannot be updated".to_string(),
    )));
    assert_eq!(violation.status_code(), 400);
    assert_eq!(violation.message(), "An applied book cannot be updated");

    let publisher = AppError(ApiError::PublisherDomainError(DomainError::InvalidFormat(
        "Name must be 32 chars or less".to_string(),
    )));
    assert_eq!(publisher.status_code(), 400);

    let shop = AppError(ApiError::ShopDomainError(DomainError::InvalidFormat(
        "Name must be 32 chars or less".to_string(),
    )));
    assert_eq!(shop.status_code(), 400);
}

#[test]
fn map_error_wraps_the_kind_unchanged() {
    let wrapped = map_error(ApiError::NotFound("Shop not found".to_string()));
    assert_eq!(wrapped.status_code(), 404);
    assert_eq!(wrapped.message(), "Shop not found");
}

#[test]
fn domain_error_message_is_kept() {
    let e = DomainError::InvalidFormat("Price must be 0 or more".to_string());
    assert_eq!(e.message(), "Price must be 0 or more");
}
