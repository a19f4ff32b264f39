use book_manager::checkout_repo::{CheckoutRepositoryImpl, CreateCheckout, UpdateReturned};
use book_manager::error::AppError;
use book_manager::id::{BookId, UserId};

#[test]
fn second_checkout_of_same_book_conflicts() {
    let mut repo = CheckoutRepositoryImpl::new();
    let book = BookId(1);
    let first = repo.create(CreateCheckout::new(book, UserId(1), 1_000), "Alice".to_string());
    assert!(first.is_ok());
    let second = repo.create(CreateCheckout::new(book, UserId(2), 2_000), "Bob".to_string());
    assert!(matches!(second, Err(AppError::ResourceConflict(_))));
    // exactly one Active checkout exists for the book
    assert_eq!(repo.find_unreturned_all().len(), 1);
    // another book is unaffected
    let other = repo.create(CreateCheckout::new(BookId(2), UserId(2), 2_000), "Bob".to_string());
    assert!(other.is_ok());
}

#[test]
fn checkout_again_after_return_succeeds() {
    let mut repo = CheckoutRepositoryImpl::new();
    let book = BookId(1);
    let id = repo
        .create(CreateCheckout::new(book, UserId(1), 1_000), "Alice".to_string())
        .unwrap();
    let res = repo.update_returned(UpdateReturned::new(id, book, UserId(1), 2_000));
    assert!(res.is_ok());
    let again = repo.create(CreateCheckout::new(book, UserId(2), 3_000), "Bob".to_string());
    assert!(again.is_ok());
}

#[test]
fn returning_twice_is_entity_not_found_and_mutates_nothing() {
    let mut repo = CheckoutRepositoryImpl::new();
    let book = BookId(1);
    let id = repo
        .create(CreateCheckout::new(book, UserId(1), 1_000), "Alice".to_string())
        .unwrap();
    assert!(repo.update_returned(UpdateReturned::new(id, book, UserId(1), 2_000)).is_ok());

    let twice = repo.update_returned(UpdateReturned::new(id, book, UserId(1), 9_000));
    assert!(matches!(twice, Err(AppError::EntityNotFound(_))));

    // the record still carries the first return stamp
    let history = repo.find_history_by_book_id(book);
    assert_eq!(history.len(), 1);
    assert_eq!(history[0].returned_at, Some(2_000));
}

#[test]
fn returning_wrong_pairing_is_entity_not_found() {
    let mut repo = CheckoutRepositoryImpl::new();
    let id = repo
        .create(CreateCheckout::new(BookId(1), UserId(1), 1_000), "Alice".to_string())
        .unwrap();
    // right checkout id, wrong book
    let res = repo.update_returned(UpdateReturned::new(id, BookId(2), UserId(1), 2_000));
    assert!(matches!(res, Err(AppError::EntityNotFound(_))));
    // the checkout is still Active
    assert_eq!(repo.find_unreturned_all().len(), 1);
}

#[test]
fn unreturned_round_trip_and_history() {
    let mut repo = CheckoutRepositoryImpl::new();
    let book = BookId(5);
    let user = UserId(3);
    let id = repo
        .create(CreateCheckout::new(book, user, 1_000), "Carol".to_string())
        .unwrap();

    // right after creation the user's unreturned listing holds exactly it
    let mine = repo.find_unreturned_by_user_id(user);
    assert_eq!(mine.len(), 1);
    assert_eq!(mine[0].checkout_id, id);
    assert_eq!(mine[0].checked_out_by.user_id, user);
    assert_eq!(mine[0].checked_out_by.name, "Carol");
    assert_eq!(mine[0].checked_out_at, 1_000);

    // someone else's listing stays empty
    assert_eq!(repo.find_unreturned_by_user_id(UserId(9)).len(), 0);

    // after the return it is gone from the unreturned listing ...
    assert!(repo.update_returned(UpdateReturned::new(id, book, user, 2_000)).is_ok());
    assert_eq!(repo.find_unreturned_by_user_id(user).len(), 0);

    // ... while the book's history still shows it, marked Returned
    let history = repo.find_history_by_book_id(book);
    assert_eq!(history.len(), 1);
    assert_eq!(history[0].checkout_id, id);
    assert_eq!(history[0].checked_out_at, 1_000);
    assert_eq!(history[0].returned_at, Some(2_000));
}

#[test]
fn active_join_row_follows_the_lifecycle() {
    let mut repo = CheckoutRepositoryImpl::new();
    let book = BookId(4);
    assert!(repo.find_active_by_book_id(book).is_none());
    let id = repo
        .create(CreateCheckout::new(book, UserId(2), 7_000), "Dan".to_string())
        .unwrap();
    let row = repo.find_active_by_book_id(book).unwrap();
    assert_eq!(row.checkout_id, id);
    assert_eq!(row.book_id, book);
    assert_eq!(row.user_id, UserId(2));
    assert_eq!(row.user_name, "Dan");
    assert_eq!(row.checked_out_at, 7_000);
    assert!(repo.update_returned(UpdateReturned::new(id, book, UserId(2), 8_000)).is_ok());
    assert!(repo.find_active_by_book_id(book).is_none());
}
