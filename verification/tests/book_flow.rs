use bookstore::domain::book::BookStatus;
use bookstore::domain::error::DomainError;
use bookstore::domain::vo::BookFormat;
use bookstore::usecase::book::{CreateDto, UpdateDto};
use bookstore::usecase::error::ApiError;
use bookstore::AppState;

fn publisher_id(state: &mut AppState, name: &str) -> u128 {
    let dto = bookstore::usecase::publisher::CreateDto { name: name.to_string() };
    state.publisher_usecase.create(dto).expect("failed to create publisher").pub_id
}

fn book_dto(publisher_pub_id: u128) -> CreateDto {
    CreateDto {
        title: "Test Book".to_string(),
        author: "Tester".to_string(),
        publisher_pub_id,
        shop_pub_id: None,
        format: BookFormat::Real,
        price: 1200,
    }
}

#[test]
fn test_book_usecase() {
    let mut state = AppState::new();
    let publisher = publisher_id(&mut state, "Test Publisher");

    let created = state
        .book_usecase
        .create(&state.publisher_usecase.repo, &state.shop_usecase.repo, book_dto(publisher))
        .expect("failed to create");
    assert_eq!(created.title, "Test Book");
    assert_eq!(created.author, "Tester");

    let books = state.book_usecase.get_all().expect("failed to get all");
    assert_eq!(books.len(), 1);
    assert_eq!(books[0].title, "Test Book");
}

#[test]
fn created_book_is_fetched_with_identical_fields() {
    let mut state = AppState::new();
    let publisher = publisher_id(&mut state, "Addison-Wesley");

    let created = state
        .book_usecase
        .create(&state.publisher_usecase.repo, &state.shop_usecase.repo, book_dto(publisher))
        .expect("failed to create");

    let fetched = state.book_usecase.get(created.pub_id).expect("failed to fetch");
    assert_eq!(fetched.pub_id, created.pub_id);
    assert_eq!(fetched.title, "Test Book");
    assert_eq!(fetched.author, "Tester");
    assert_eq!(fetched.publisher_pub_id, publisher);
    assert_eq!(fetched.shop_pub_id, None);
    assert_eq!(fetched.format, BookFormat::Real);
    assert_eq!(fetched.price, 1200);
    assert_eq!(fetched.status, BookStatus::Unapplied);
}

#[test]
fn create_with_unknown_publisher_fails_before_any_write() {
    let mut state = AppState::new();
    let err = state
        .book_usecase
        .create(&state.publisher_usecase.repo, &state.shop_usecase.repo, book_dto(12345))
        .unwrap_err();
    assert!(matches!(err, ApiError::NotFound(_)));
    assert_eq!(state.book_usecase.get_all().unwrap().len(), 0);
}

#[test]
fn create_with_unknown_shop_fails_before_any_write() {
    let mut state = AppState::new();
    let publisher = publisher_id(&mut state, "Springer");
    let mut dto = book_dto(publisher);
    dto.shop_pub_id = Some(999);
    let err = state
        .book_usecase
        .create(&state.publisher_usecase.repo, &state.shop_usecase.repo, dto)
        .unwrap_err();
    assert!(matches!(err, ApiError::NotFound(_)));
    assert_eq!(state.book_usecase.get_all().unwrap().len(), 0);
}

#[test]
fn create_with_known_shop_keeps_the_reference() {
    let mut state = AppState::new();
    let publisher = publisher_id(&mut state, "Manning");
    let shop = state
        .shop_usecase
        .create(bookstore::usecase::shop::CreateDto { name: "Corner Books".to_string() })
        .expect("failed to create shop")
        .pub_id;
    let mut dto = book_dto(publisher);
    dto.shop_pub_id = Some(shop);
    let created = state
        .book_usecase
        .create(&state.publisher_usecase.repo, &state.shop_usecase.repo, dto)
        .expect("failed to create");
    assert_eq!(created.shop_pub_id, Some(shop));
}

#[test]
fn create_rejects_invalid_value_objects() {
    let mut state = AppState::new();
    let publisher = publisher_id(&mut state, "Pragmatic");

    let mut long_title = book_dto(publisher);
    long_title.title = "t".repeat(33);
    let err = state
        .book_usecase
        .create(&state.publisher_usecase.repo, &state.shop_usecase.repo, long_title)
        .unwrap_err();
    assert!(matches!(err, ApiError::BookDomainError(DomainError::InvalidFormat(_))));

    let mut negative_price = book_dto(publisher);
    negative_price.price = -5;
    let err = state
        .book_usecase
        .create(&state.publisher_usecase.repo, &state.shop_usecase.repo, negative_price)
        .unwrap_err();
    assert!(matches!(err, ApiError::BookDomainError(DomainError::InvalidFormat(_))));

    assert_eq!(state.book_usecase.get_all().unwrap().len(), 0);
}

fn update_dto(publisher_pub_id: u128) -> UpdateDto {
    UpdateDto {
        title: "Second Edition".to_string(),
        author: "Tester".to_string(),
        publisher_pub_id,
        shop_pub_id: None,
        format: BookFormat::EBook,
        price: 1500,
    }
}

#[test]
fn update_replaces_fields_while_unapplied() {
    let mut state = AppState::new();
    let publisher = publisher_id(&mut state, "No Starch");
    let created = state
        .book_usecase
        .create(&state.publisher_usecase.repo, &state.shop_usecase.repo, book_dto(publisher))
        .expect("failed to create");

    let updated = state
        .book_usecase
        .update(
            &state.publisher_usecase.repo,
            &state.shop_usecase.repo,
            created.pub_id,
            update_dto(publisher),
        )
        .expect("failed to update");
    assert_eq!(updated.title, "Second Edition");
    assert_eq!(updated.format, BookFormat::EBook);
    assert_eq!(updated.price, 1500);
    assert_eq!(updated.status, BookStatus::Unapplied);

    let fetched = state.book_usecase.get(created.pub_id).unwrap();
    assert_eq!(fetched.title, "Second Edition");
}

#[test]
fn update_on_applied_book_fails_and_toggle_reenables_it() {
    let mut state = AppState::new();
    let publisher = publisher_id(&mut state, "Apress");
    let created = state
        .book_usecase
        .create(&state.publisher_usecase.repo, &state.shop_usecase.repo, book_dto(publisher))
        .expect("failed to create");

    let switched = state.book_usecase.switch_status(created.pub_id).expect("failed to switch");
    assert_eq!(switched.status, BookStatus::Applied);

    let err = state
        .book_usecase
        .update(
            &state.publisher_usecase.repo,
            &state.shop_usecase.repo,
            created.pub_id,
            update_dto(publisher),
        )
        .unwrap_err();
    assert!(matches!(err, ApiError::BookDomainError(DomainError::DomainRuleViolation(_))));
    assert_eq!(state.book_usecase.get(created.pub_id).unwrap().title, "Test Book");

    let switched_back = state.book_usecase.switch_status(created.pub_id).expect("failed to switch");
    assert_eq!(switched_back.status, BookStatus::Unapplied);

    let updated = state
        .book_usecase
        .update(
            &state.publisher_usecase.repo,
            &state.shop_usecase.repo,
            created.pub_id,
            update_dto(publisher),
        )
        .expect("failed to update after switching back");
    assert_eq!(updated.title, "Second Edition");
}

#[test]
fn switch_status_flips_exactly_once_per_call() {
    let mut state = AppState::new();
    let publisher = publisher_id(&mut state, "Wiley");
    let created = state
        .book_usecase
        .create(&state.publisher_usecase.repo, &state.shop_usecase.repo, book_dto(publisher))
        .expect("failed to create");
    assert_eq!(created.status, BookStatus::Unapplied);
    assert_eq!(
        state.book_usecase.switch_status(created.pub_id).unwrap().status,
        BookStatus::Applied,
    );
    assert_eq!(
        state.book_usecase.switch_status(created.pub_id).unwrap().status,
        BookStatus::Unapplied,
    );
}

#[test]
fn deleted_book_is_not_found() {
    let mut state = AppState::new();
    let publisher = publisher_id(&mut state, "Elsevier");
    let created = state
        .book_usecase
        .create(&state.publisher_usecase.repo, &state.shop_usecase.repo, book_dto(publisher))
        .expect("failed to create");

    state.book_usecase.delete(created.pub_id).expect("failed to delete");
    let err = state.book_usecase.get(created.pub_id).unwrap_err();
    assert!(matches!(err, ApiError::NotFound(_)));
    assert_eq!(state.book_usecase.get_all().unwrap().len(), 0);
}

#[test]
fn delete_of_unknown_book_is_not_found() {
    let mut state = AppState::new();
    let err = state.book_usecase.delete(4242).unwrap_err();
    assert!(matches!(err, ApiError::NotFound(_)));
}

#[test]
fn update_of_unknown_book_is_not_found() {
    let mut state = AppState::new();
    let publisher = publisher_id(&mut state, "MIT Press");
    let err = state
        .book_usecase
        .update(
            &state.publisher_usecase.repo,
            &state.shop_usecase.repo,
            777,
            update_dto(publisher),
        )
        .unwrap_err();
    assert!(matches!(err, ApiError::NotFound(_)));
}

#[test]
fn update_to_unknown_publisher_is_not_found() {
    let mut state = AppState::new();
    let publisher = publisher_id(&mut state, "CUP");
    let created = state
        .book_usecase
        .create(&state.publisher_usecase.repo, &state.shop_usecase.repo, book_dto(publisher))
        .expect("failed to create");
    let err = state
        .book_usecase
        .update(
            &state.publisher_usecase.repo,
            &state.shop_usecase.repo,
            created.pub_id,
            update_dto(31337),
        )
        .unwrap_err();
    assert!(matches!(err, ApiError::NotFound(_)));
    assert_eq!(state.book_usecase.get(created.pub_id).unwrap().publisher_pub_id, publisher);
}
