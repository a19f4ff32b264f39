use book_manager::book::{BookListOptions, CreateBook, DeleteBook, UpdateBook};
use book_manager::book_repo::BookRepositoryImpl;
use book_manager::error::AppError;
use book_manager::id::UserId;
use book_manager::role::Role;
use book_manager::user::CreateUser;
use book_manager::user_repo::UserRepositoryImpl;

fn sample_book() -> CreateBook {
    CreateBook {
        title: "Test Title".to_string(),
        author: "Test Author".to_string(),
        isbn: "Test ISBN".to_string(),
        description: "Test Description".to_string(),
    }
}

#[test]
fn test_register_book() {
    let mut user_repo = UserRepositoryImpl::new();
    let user = user_repo.create(CreateUser {
        name: "Test User".to_string(),
        email: "test@example.com".to_string(),
        password: "test_password".to_string(),
    });
    assert_eq!(user.role, Role::User);

    let mut repo = BookRepositoryImpl::new();
    repo.create(sample_book(), user.id, user.name.clone());

    let res = repo.find_all(BookListOptions { limit: 10, offset: 0 });
    assert_eq!(res.items.len(), 1);

    let book_id = res.items[0].book_id;
    let res = repo.find_by_id(book_id);
    assert!(res.is_some());

    let row = res.unwrap();
    assert_eq!(row.book_id, book_id);
    assert_eq!(row.title, "Test Title");
    assert_eq!(row.author, "Test Author");
    assert_eq!(row.isbn, "Test ISBN");
    assert_eq!(row.description, "Test Description");
    assert_eq!(row.owner_name, "Test User");
}

#[test]
fn pagination_window_and_total() {
    let mut repo = BookRepositoryImpl::new();
    for i in 0..25u64 {
        let event = CreateBook {
            title: format!("Title {}", i),
            author: "Author".to_string(),
            isbn: "ISBN".to_string(),
            description: String::new(),
        };
        repo.create(event, UserId(1), "Owner".to_string());
    }
    // N = 25, L = 10, K = 20 -> min(10, 25 - 20) = 5 items, total 25
    let page = repo.find_all(BookListOptions { limit: 10, offset: 20 });
    assert_eq!(page.total, 25);
    assert_eq!(page.limit, 10);
    assert_eq!(page.offset, 20);
    assert_eq!(page.items.len(), 5);
    // newest first: offset 20 skips the 20 newest, so the page starts at
    // the fifth-created book and walks back to the first
    assert_eq!(page.items[0].title, "Title 4");
    assert_eq!(page.items[4].title, "Title 0");

    let empty = repo.find_all(BookListOptions { limit: 10, offset: 25 });
    assert_eq!(empty.total, 25);
    assert_eq!(empty.items.len(), 0);

    let first = repo.find_all(BookListOptions { limit: 3, offset: 0 });
    assert_eq!(first.items.len(), 3);
    assert_eq!(first.items[0].title, "Title 24");
}

#[test]
fn nonowner_update_is_entity_not_found_and_changes_nothing() {
    let mut repo = BookRepositoryImpl::new();
    let owner = UserId(1);
    let stranger = UserId(2);
    let book_id = repo.create(sample_book(), owner, "Owner".to_string());

    let res = repo.update(UpdateBook {
        book_id,
        title: "Hijacked".to_string(),
        author: "Nobody".to_string(),
        isbn: "0".to_string(),
        description: String::new(),
        requested_user: stranger,
    });
    assert!(matches!(res, Err(AppError::EntityNotFound(_))));
    let row = repo.find_by_id(book_id).unwrap();
    assert_eq!(row.title, "Test Title");

    let res = repo.delete(DeleteBook { book_id, requested_user: stranger });
    assert!(matches!(res, Err(AppError::EntityNotFound(_))));
    assert!(repo.find_by_id(book_id).is_some());
}

#[test]
fn owner_update_is_reflected_in_find_by_id() {
    let mut repo = BookRepositoryImpl::new();
    let owner = UserId(7);
    let book_id = repo.create(sample_book(), owner, "Owner".to_string());

    let res = repo.update(UpdateBook {
        book_id,
        title: "New Title".to_string(),
        author: "New Author".to_string(),
        isbn: "New ISBN".to_string(),
        description: "New Description".to_string(),
        requested_user: owner,
    });
    assert!(res.is_ok());
    let row = repo.find_by_id(book_id).unwrap();
    assert_eq!(row.title, "New Title");
    assert_eq!(row.author, "New Author");
    assert_eq!(row.isbn, "New ISBN");
    assert_eq!(row.description, "New Description");
    assert_eq!(row.owned_by, owner);

    let res = repo.delete(DeleteBook { book_id, requested_user: owner });
    assert!(res.is_ok());
    assert!(repo.find_by_id(book_id).is_none());
}

#[test]
fn absent_book_update_is_entity_not_found() {
    let mut repo = BookRepositoryImpl::new();
    let res = repo.update(UpdateBook {
        book_id: book_manager::id::BookId(42),
        title: "T".to_string(),
        author: "A".to_string(),
        isbn: "I".to_string(),
        description: String::new(),
        requested_user: UserId(1),
    });
    assert!(matches!(res, Err(AppError::EntityNotFound(_))));
}
