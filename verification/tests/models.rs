use book_manager::book::{Book, BookCheckoutRow, BookRow, Checkout};
use book_manager::env::Environment;
use book_manager::id::{BookId, CheckoutId, UserId};
use book_manager::requests::{
    BookResponse, CreateBookRequest, CreateUserRequest, default_limit,
};
use book_manager::role::{Role, RoleName};

#[test]
fn it_works() {
    assert_eq!(book_manager::add(2, 2), 4);
    assert_eq!(book_manager::add(2, 3), 5);
}

#[test]
fn role_names_round_trip() {
    assert_eq!(Role::from(RoleName::Admin), Role::Admin);
    assert_eq!(Role::from(RoleName::User), Role::User);
    assert_eq!(RoleName::from(Role::Admin), RoleName::Admin);
    assert_eq!(RoleName::from(Role::User), RoleName::User);
}

#[test]
fn environment_parsing() {
    assert_eq!(Environment::parse("Production"), Some(Environment::Production));
    assert_eq!(Environment::parse("Development"), Some(Environment::Development));
    assert_eq!(Environment::parse("production"), None);
    assert_eq!(Environment::parse(""), None);
    assert_eq!(Environment::default(), Environment::Development);
}

#[test]
fn default_page_limit_is_twenty() {
    assert_eq!(default_limit(), 20);
}

#[test]
fn row_joins_into_book() {
    let row = BookRow {
        book_id: BookId(1),
        title: "T".to_string(),
        author: "A".to_string(),
        isbn: "I".to_string(),
        description: "D".to_string(),
        owned_by: UserId(2),
        owner_name: "O".to_string(),
    };
    let checkout_row = BookCheckoutRow {
        checkout_id: CheckoutId(3),
        book_id: BookId(1),
        user_id: UserId(4),
        user_name: "U".to_string(),
        checked_out_at: 99,
    };
    let book: Book = row.into_book(Some(Checkout::from(checkout_row)));
    assert_eq!(book.book_id, BookId(1));
    assert_eq!(book.owner.user_id, UserId(2));
    assert_eq!(book.owner.name, "O");
    let held = book.checkout.as_ref().unwrap();
    assert_eq!(held.checkout_id, CheckoutId(3));
    assert_eq!(held.checked_out_by.user_id, UserId(4));
    assert_eq!(held.checked_out_by.name, "U");
    assert_eq!(held.checked_out_at, 99);

    let resp = BookResponse::from(book);
    assert_eq!(resp.title, "T");
    assert_eq!(resp.checkout.unwrap().checkout_id, CheckoutId(3));
}

#[test]
fn email_shape_validation() {
    let base = |email: &str| CreateUserRequest {
        name: "n".to_string(),
        email: email.to_string(),
        password: "p".to_string(),
    };
    assert!(base("a@b").validate().is_ok());
    assert!(base("user@example.com").validate().is_ok());
    assert!(base("@b").validate().is_err());
    assert!(base("a@").validate().is_err());
    assert!(base("ab").validate().is_err());
    assert!(base("").validate().is_err());
}

#[test]
fn book_request_validation() {
    let req = CreateBookRequest {
        title: "t".to_string(),
        author: "a".to_string(),
        isbn: "i".to_string(),
        description: String::new(),
    };
    assert!(req.validate().is_ok());
    let req = CreateBookRequest {
        title: "t".to_string(),
        author: String::new(),
        isbn: "i".to_string(),
        description: "d".to_string(),
    };
    assert!(req.validate().is_err());
}
