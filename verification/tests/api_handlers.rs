use book_manager::auth::{AccessToken, AuthorizedUser};
use book_manager::error::AppError;
use book_manager::handler::{
    change_password, change_role, checkout_book, checkout_history, delete_book, delete_user,
    get_checkouts, get_current_user, list_users, register_book, register_user, return_book,
    show_book, show_book_list, show_checked_out_list, update_book,
};
use book_manager::id::UserId;
use book_manager::registry::AppRegistry;
use book_manager::requests::{
    BookListQuery, CreateBookRequest, CreateUserRequest, UpdateBookRequest,
    UpdateUserPasswordRequest, UpdateUserRoleRequest,
};
use book_manager::role::{Role, RoleName};
use book_manager::user::{CreateUser, User};

fn principal(registry: &mut AppRegistry, name: &str, role: Role) -> AuthorizedUser {
    let user = registry.user_repository.create(CreateUser {
        name: name.to_string(),
        email: format!("{}@example.com", name),
        password: "pw".to_string(),
    });
    let user = if role == Role::Admin {
        let mut admin = user;
        admin.role = Role::Admin;
        // reflect the elevated role in the store as an admin would have set it
        let rec_role = book_manager::user::UpdateUserRole { user_id: admin.id, role: Role::Admin };
        registry.user_repository.update_role(rec_role).unwrap();
        admin
    } else {
        user
    };
    AuthorizedUser { access_token: AccessToken(format!("token-{}", name)), user }
}

fn book_request(title: &str) -> CreateBookRequest {
    CreateBookRequest {
        title: title.to_string(),
        author: "Author".to_string(),
        isbn: "ISBN".to_string(),
        description: "About".to_string(),
    }
}

#[test]
fn end_to_end_ownership_scenario() {
    let mut registry = AppRegistry::new();
    let u1 = principal(&mut registry, "owner", Role::User);
    let u2 = principal(&mut registry, "stranger", Role::User);

    // U1 registers book B
    assert!(register_book(&u1, &mut registry, book_request("B")).is_ok());
    let page = show_book_list(&u1, BookListQuery { limit: 10, offset: 0 }, &registry).unwrap();
    assert_eq!(page.total, 1);
    let book_id = page.books[0].book_id;

    // U2 attempts to delete B -> EntityNotFound, and B is unchanged
    let res = delete_book(&u2, book_id, &mut registry);
    assert!(matches!(res, Err(AppError::EntityNotFound(_))));
    assert!(show_book(&u1, book_id, &registry).is_ok());

    // U1 deletes B -> success; a subsequent lookup is empty
    assert!(delete_book(&u1, book_id, &mut registry).is_ok());
    let res = show_book(&u1, book_id, &registry);
    assert!(matches!(res, Err(AppError::EntityNotFound(_))));
}

#[test]
fn update_by_stranger_leaves_the_book_as_it_was() {
    let mut registry = AppRegistry::new();
    let owner = principal(&mut registry, "owner", Role::User);
    let stranger = principal(&mut registry, "other", Role::User);
    register_book(&owner, &mut registry, book_request("Original")).unwrap();
    let book_id =
        show_book_list(&owner, BookListQuery { limit: 1, offset: 0 }, &registry).unwrap().books[0]
            .book_id;

    let edit = UpdateBookRequest {
        title: "Stolen".to_string(),
        author: "X".to_string(),
        isbn: "Y".to_string(),
        description: String::new(),
    };
    let res = update_book(&stranger, book_id, &mut registry, edit);
    assert!(matches!(res, Err(AppError::EntityNotFound(_))));
    assert_eq!(show_book(&owner, book_id, &registry).unwrap().title, "Original");

    let edit = UpdateBookRequest {
        title: "Renamed".to_string(),
        author: "X".to_string(),
        isbn: "Y".to_string(),
        description: String::new(),
    };
    assert!(update_book(&owner, book_id, &mut registry, edit).is_ok());
    assert_eq!(show_book(&owner, book_id, &registry).unwrap().title, "Renamed");
}

#[test]
fn checkout_handlers_enforce_exclusivity_and_history() {
    let mut registry = AppRegistry::new();
    let alice = principal(&mut registry, "alice", Role::User);
    let bob = principal(&mut registry, "bob", Role::User);
    register_book(&alice, &mut registry, book_request("Shared")).unwrap();
    let book_id =
        show_book_list(&alice, BookListQuery { limit: 1, offset: 0 }, &registry).unwrap().books[0]
            .book_id;

    assert!(checkout_book(&alice, book_id, &mut registry).is_ok());
    let res = checkout_book(&bob, book_id, &mut registry);
    assert!(matches!(res, Err(AppError::ResourceConflict(_))));

    // the lookup now shows the book held by alice
    let shown = show_book(&bob, book_id, &registry).unwrap();
    let held = shown.checkout.unwrap();
    assert_eq!(held.checked_out_by.user_id, alice.user.id);
    let checkout_id = held.checkout_id;

    assert_eq!(show_checked_out_list(&bob, &registry).len(), 1);
    assert_eq!(get_checkouts(&alice, &registry).len(), 1);
    assert_eq!(get_checkouts(&bob, &registry).len(), 0);

    assert!(return_book(&alice, book_id, checkout_id, &mut registry).is_ok());
    assert_eq!(get_checkouts(&alice, &registry).len(), 0);
    let res = return_book(&alice, book_id, checkout_id, &mut registry);
    assert!(matches!(res, Err(AppError::EntityNotFound(_))));

    let history = checkout_history(&alice, book_id, &registry);
    assert_eq!(history.len(), 1);
    assert_eq!(history[0].checkout_id, checkout_id);
    assert!(history[0].returned_at.is_some());

    // the book can be taken again after the return
    assert!(checkout_book(&bob, book_id, &mut registry).is_ok());
}

#[test]
fn admin_gate_guards_user_administration() {
    let mut registry = AppRegistry::new();
    let admin = principal(&mut registry, "root", Role::Admin);
    let plain = principal(&mut registry, "plain", Role::User);

    let req = CreateUserRequest {
        name: "newbie".to_string(),
        email: "newbie@example.com".to_string(),
        password: "secret".to_string(),
    };
    let res = register_user(&plain, &mut registry, req);
    assert!(matches!(res, Err(AppError::ForbiddenOperationError)));

    let req = CreateUserRequest {
        name: "newbie".to_string(),
        email: "newbie@example.com".to_string(),
        password: "secret".to_string(),
    };
    let created = register_user(&admin, &mut registry, req).unwrap();
    assert_eq!(created.name, "newbie");
    assert!(matches!(created.role, RoleName::User));

    let res = change_role(
        &plain,
        created.id,
        &mut registry,
        UpdateUserRoleRequest { role: RoleName::Admin },
    );
    assert!(matches!(res, Err(AppError::ForbiddenOperationError)));
    assert!(change_role(
        &admin,
        created.id,
        &mut registry,
        UpdateUserRoleRequest { role: RoleName::Admin },
    )
    .is_ok());

    let res = delete_user(&plain, created.id, &mut registry);
    assert!(matches!(res, Err(AppError::ForbiddenOperationError)));
    assert!(delete_user(&admin, created.id, &mut registry).is_ok());
    let res = delete_user(&admin, created.id, &mut registry);
    assert!(matches!(res, Err(AppError::EntityNotFound(_))));
}

#[test]
fn validation_rejects_bad_requests_without_writing() {
    let mut registry = AppRegistry::new();
    let admin = principal(&mut registry, "root", Role::Admin);

    let res = register_book(&admin, &mut registry, book_request(""));
    assert!(matches!(res, Err(AppError::ValidationError(_))));
    let page = show_book_list(&admin, BookListQuery { limit: 10, offset: 0 }, &registry).unwrap();
    assert_eq!(page.total, 0);

    let res = show_book_list(&admin, BookListQuery { limit: -1, offset: 0 }, &registry);
    assert!(matches!(res, Err(AppError::ValidationError(_))));

    let users_before = list_users(&admin, &registry).items.len();
    let req = CreateUserRequest {
        name: "noaddress".to_string(),
        email: "not-an-email".to_string(),
        password: "secret".to_string(),
    };
    let res = register_user(&admin, &mut registry, req);
    assert!(matches!(res, Err(AppError::ValidationError(_))));
    assert_eq!(list_users(&admin, &registry).items.len(), users_before);
}

#[test]
fn self_service_profile_and_password() {
    let mut registry = AppRegistry::new();
    let me = principal(&mut registry, "self", Role::User);
    let my_id = me.user.id;

    let req = UpdateUserPasswordRequest {
        current_password: "wrong".to_string(),
        new_password: "next".to_string(),
    };
    let res = change_password(&me, &mut registry, req);
    assert!(matches!(res, Err(AppError::UnauthenticatedError)));

    let req = UpdateUserPasswordRequest {
        current_password: "pw".to_string(),
        new_password: "next".to_string(),
    };
    assert!(change_password(&me, &mut registry, req).is_ok());

    // the new password is the one that counts now
    let req = UpdateUserPasswordRequest {
        current_password: "pw".to_string(),
        new_password: "again".to_string(),
    };
    let res = change_password(&me, &mut registry, req);
    assert!(matches!(res, Err(AppError::UnauthenticatedError)));

    let shown = get_current_user(me);
    assert_eq!(shown.id, my_id);
    assert_eq!(shown.name, "self");
}

#[test]
fn list_users_mirrors_the_store() {
    let mut registry = AppRegistry::new();
    let viewer = principal(&mut registry, "viewer", Role::User);
    let listed = list_users(&viewer, &registry);
    assert_eq!(listed.items.len(), 1);
    assert_eq!(listed.items[0].name, "viewer");
    assert_eq!(listed.items[0].email, "viewer@example.com");
}

#[test]
fn error_labels_are_stable() {
    assert_eq!(AppError::UnauthorizedError.label(), "unauthorized");
    assert_eq!(AppError::UnauthenticatedError.label(), "unauthenticated");
    assert_eq!(AppError::ForbiddenOperationError.label(), "forbidden");
    assert_eq!(AppError::EntityNotFound(String::new()).label(), "entity_not_found");
    assert_eq!(AppError::ResourceConflict(String::new()).label(), "conflict");
    assert_eq!(AppError::ValidationError(String::new()).label(), "validation");
}

#[test]
fn authorized_user_accessors() {
    let user = User {
        id: UserId(11),
        name: "n".to_string(),
        email: "n@example.com".to_string(),
        role: Role::User,
    };
    let principal = AuthorizedUser { access_token: AccessToken("t".to_string()), user };
    assert_eq!(principal.id(), UserId(11));
    assert!(!principal.is_admin());
}
