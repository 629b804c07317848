use bookstore::domain::error::DomainError;
use bookstore::domain::vo::{
    BookAuthor, BookFormat, BookPrice, BookTitle, PublisherName, ShopName,
};

#[test]
fn title_within_limit_keeps_value() {
    let t = BookTitle::new("The Art of Computer Programming".to_string()).unwrap();
    assert_eq!(t.value(), "The Art of Computer Programming");
}

#[test]
fn title_at_exactly_32_chars_is_accepted() {
    let s = "a".repeat(32);
    let t = BookTitle::new(s.clone()).unwrap();
    assert_eq!(t.value(), s);
}

#[test]
fn title_over_32_chars_is_rejected() {
    let s = "a".repeat(33);
    let e = BookTitle::new(s).unwrap_err();
    match e {
        DomainError::InvalidFormat(m) => assert_eq!(m, "Title must be 32 chars or less"),
        other => panic!("unexpected error: {:?}", other),
    }
}

#[test]
fn title_counts_characters_not_bytes() {
    // 32 three-byte characters: 96 bytes, but only 32 characters.
    let ok = "\u{3042}".repeat(32);
    assert!(BookTitle::new(ok).is_ok());
    let too_long = "\u{3042}".repeat(33);
    assert!(BookTitle::new(too_long).is_err());
}

#[test]
fn empty_title_is_accepted() {
    let t = BookTitle::new(String::new()).unwrap();
    assert_eq!(t.value(), "");
}

#[test]
fn author_limit_is_enforced() {
    let a = BookAuthor::new("Donald Knuth".to_string()).unwrap();
    assert_eq!(a.value(), "Donald Knuth");
    let e = BookAuthor::new("b".repeat(33)).unwrap_err();
    match e {
        DomainError::InvalidFormat(m) => assert_eq!(m, "Author must be 32 chars or less"),
        other => panic!("unexpected error: {:?}", other),
    }
}

#[test]
fn negative_price_is_rejected() {
    let e = BookPrice::new(-1).unwrap_err();
    assert!(matches!(e, DomainError::InvalidFormat(_)));
    assert!(BookPrice::new(i32::MIN).is_err());
}

#[test]
fn zero_and_positive_prices_are_accepted() {
    assert_eq!(BookPrice::new(0).unwrap().value(), 0);
    assert_eq!(BookPrice::new(42).unwrap().value(), 42);
    assert_eq!(BookPrice::new(i32::MAX).unwrap().value(), i32::MAX);
}

#[test]
fn publisher_name_limit_is_enforced() {
    let n = PublisherName::new("O'Reilly".to_string()).unwrap();
    assert_eq!(n.value(), "O'Reilly");
    assert!(PublisherName::new("c".repeat(32)).is_ok());
    assert!(PublisherName::new("c".repeat(33)).is_err());
}

#[test]
fn shop_name_limit_is_enforced() {
    let n = ShopName::new("Corner Books".to_string()).unwrap();
    assert_eq!(n.value(), "Corner Books");
    assert!(ShopName::new("d".repeat(32)).is_ok());
    assert!(ShopName::new("d".repeat(33)).is_err());
}

#[test]
fn format_names_are_fixed() {
    assert_eq!(BookFormat::Real.as_str(), "Real");
    assert_eq!(BookFormat::EBook.as_str(), "EBook");
    assert_eq!(BookFormat::default(), BookFormat::Real);
}
