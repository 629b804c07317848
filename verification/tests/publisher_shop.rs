use bookstore::usecase::error::ApiError;
use bookstore::usecase::publisher::Service as PublisherService;
use bookstore::usecase::shop::Service as ShopService;
use bookstore::mocks::{MockPublisherRepository, MockShopRepository};

#[test]
fn test_publisher_usecase() {
    let mut service = PublisherService::new(MockPublisherRepository::new());

    let dto = bookstore::usecase::publisher::CreateDto { name: "Test Publisher".to_string() };
    let created = service.create(dto).expect("failed to create");
    assert_eq!(created.name, "Test Publisher");

    let pubs = service.get_all().expect("failed to get all");
    assert_eq!(pubs.len(), 1);
    assert_eq!(pubs[0].name, "Test Publisher");
}

#[test]
fn test_create_and_get() {
    let mut service = ShopService::new(MockShopRepository::new());

    let dto = bookstore::usecase::shop::CreateDto { name: "Test Shop".to_string() };

    let created = service.create(dto).expect("Failed to create");
    assert_eq!(created.name, "Test Shop");

    let fetched = service.get(created.pub_id).expect("Failed to get");
    assert_eq!(fetched.pub_id, created.pub_id);
}

#[test]
fn publisher_rename_is_persisted() {
    let mut service = PublisherService::new(MockPublisherRepository::new());
    let created = service
        .create(bookstore::usecase::publisher::CreateDto { name: "Before".to_string() })
        .expect("failed to create");

    let updated = service
        .update(
            created.pub_id,
            bookstore::usecase::publisher::UpdateDto { name: "After".to_string() },
        )
        .expect("failed to update");
    assert_eq!(updated.name, "After");
    assert_eq!(updated.pub_id, created.pub_id);
    assert_eq!(service.get(created.pub_id).unwrap().name, "After");
}

#[test]
fn publisher_duplicate_name_is_a_database_error() {
    let mut service = PublisherService::new(MockPublisherRepository::new());
    service
        .create(bookstore::usecase::publisher::CreateDto { name: "Unique".to_string() })
        .expect("failed to create");
    let err = service
        .create(bookstore::usecase::publisher::CreateDto { name: "Unique".to_string() })
        .unwrap_err();
    assert!(matches!(err, ApiError::DatabaseError));
    assert_eq!(service.get_all().unwrap().len(), 1);
}

#[test]
fn publisher_long_name_is_rejected() {
    let mut service = PublisherService::new(MockPublisherRepository::new());
    let err = service
        .create(bookstore::usecase::publisher::CreateDto { name: "x".repeat(33) })
        .unwrap_err();
    assert!(matches!(err, ApiError::PublisherDomainError(_)));
    assert_eq!(service.get_all().unwrap().len(), 0);
}

#[test]
fn deleted_publisher_is_not_found() {
    let mut service = PublisherService::new(MockPublisherRepository::new());
    let created = service
        .create(bookstore::usecase::publisher::CreateDto { name: "Ephemeral".to_string() })
        .expect("failed to create");
    service.delete(created.pub_id).expect("failed to delete");
    let err = service.get(created.pub_id).unwrap_err();
    assert!(matches!(err, ApiError::NotFound(_)));
}

#[test]
fn deleted_shop_is_not_found() {
    let mut service = ShopService::new(MockShopRepository::new());
    let created = service
        .create(bookstore::usecase::shop::CreateDto { name: "Pop-up".to_string() })
        .expect("failed to create");
    service.delete(created.pub_id).expect("failed to delete");
    let err = service.get(created.pub_id).unwrap_err();
    assert!(matches!(err, ApiError::NotFound(_)));
    assert!(service.delete(created.pub_id).is_err());
}

#[test]
fn shop_rename_collision_is_a_database_error() {
    let mut service = ShopService::new(MockShopRepository::new());
    let first = service
        .create(bookstore::usecase::shop::CreateDto { name: "First".to_string() })
        .expect("failed to create");
    service
        .create(bookstore::usecase::shop::CreateDto { name: "Second".to_string() })
        .expect("failed to create");
    let err = service
        .update(first.pub_id, bookstore::usecase::shop::UpdateDto { name: "Second".to_string() })
        .unwrap_err();
    assert!(matches!(err, ApiError::DatabaseError));
    assert_eq!(service.get(first.pub_id).unwrap().name, "First");
}

#[test]
fn shop_long_name_is_rejected_as_domain_error() {
    let mut service = ShopService::new(MockShopRepository::new());
    let err = service
        .create(bookstore::usecase::shop::CreateDto { name: "y".repeat(33) })
        .unwrap_err();
    assert!(matches!(err, ApiError::ShopDomainError(_)));
    assert_eq!(service.get_all().unwrap().len(), 0);
}

#[test]
fn shop_duplicate_name_is_a_database_error() {
    let mut service = ShopService::new(MockShopRepository::new());
    service
        .create(bookstore::usecase::shop::CreateDto { name: "Twice".to_string() })
        .expect("failed to create");
    let err = service
        .create(bookstore::usecase::shop::CreateDto { name: "Twice".to_string() })
        .unwrap_err();
    assert!(matches!(err, ApiError::DatabaseError));
}
