use book_manager::auth::{AccessToken, AuthorizedUser, CreateToken, TokenStore, resolve_identity};
use book_manager::error::AppError;
use book_manager::handler::{login, logout};
use book_manager::registry::AppRegistry;
use book_manager::requests::LoginRequest;
use book_manager::id::UserId;
use book_manager::role::Role;
use book_manager::user::{CreateUser, DeleteUser, User};
use book_manager::user_repo::UserRepositoryImpl;

fn stored_user(users: &mut UserRepositoryImpl, name: &str) -> User {
    users.create(CreateUser {
        name: name.to_string(),
        email: format!("{}@example.com", name),
        password: "pw".to_string(),
    })
}

#[test]
fn missing_or_malformed_header_is_unauthorized() {
    let tokens = TokenStore::new();
    let users = UserRepositoryImpl::new();
    let res = resolve_identity(None, &tokens, &users);
    assert!(matches!(res, Err(AppError::UnauthorizedError)));

    let res = resolve_identity(Some("Basic abc"), &tokens, &users);
    assert!(matches!(res, Err(AppError::UnauthorizedError)));

    let res = resolve_identity(Some("Bearer"), &tokens, &users);
    assert!(matches!(res, Err(AppError::UnauthorizedError)));
}

#[test]
fn unbound_token_is_unauthenticated() {
    let tokens = TokenStore::new();
    let mut users = UserRepositoryImpl::new();
    stored_user(&mut users, "alice");
    let res = resolve_identity(Some("Bearer nobody"), &tokens, &users);
    assert!(matches!(res, Err(AppError::UnauthenticatedError)));
}

#[test]
fn stale_token_of_deleted_user_is_unauthenticated() {
    let mut tokens = TokenStore::new();
    let mut users = UserRepositoryImpl::new();
    let user = stored_user(&mut users, "bob");
    tokens.bind(AccessToken("tok".to_string()), user.id);
    assert!(users.delete(DeleteUser { user_id: user.id }).is_ok());
    let res = resolve_identity(Some("Bearer tok"), &tokens, &users);
    assert!(matches!(res, Err(AppError::UnauthenticatedError)));
}

#[test]
fn bound_token_resolves_the_principal() {
    let mut tokens = TokenStore::new();
    let mut users = UserRepositoryImpl::new();
    let user = stored_user(&mut users, "carol");
    tokens.bind(AccessToken("tok-1".to_string()), user.id);

    let resolved = resolve_identity(Some("Bearer tok-1"), &tokens, &users).unwrap();
    assert_eq!(resolved.user.id, user.id);
    assert_eq!(resolved.user.name, "carol");
    assert_eq!(resolved.access_token.0, "tok-1");
    assert_eq!(resolved.id(), user.id);
    assert!(!resolved.is_admin());
}

#[test]
fn bind_lookup_revoke_round_trip() {
    let mut tokens = TokenStore::new();
    let t1 = AccessToken("one".to_string());
    let t2 = AccessToken("two".to_string());
    assert!(tokens.lookup(&t1).is_none());

    tokens.bind(t1.clone(), UserId(1));
    tokens.bind(t2.clone(), UserId(2));
    assert_eq!(tokens.lookup(&t1), Some(UserId(1)));
    assert_eq!(tokens.lookup(&t2), Some(UserId(2)));

    // rebinding replaces the previous binding of the same token
    tokens.bind(t1.clone(), UserId(3));
    assert_eq!(tokens.lookup(&t1), Some(UserId(3)));
    assert_eq!(tokens.lookup(&t2), Some(UserId(2)));

    tokens.revoke(&t1);
    assert!(tokens.lookup(&t1).is_none());
    assert_eq!(tokens.lookup(&t2), Some(UserId(2)));
}

#[test]
fn fresh_tokens_have_the_stated_shape() {
    let a = CreateToken::new(UserId(1));
    let b = CreateToken::new(UserId(1));
    assert_eq!(a.id, UserId(1));
    assert_eq!(a.access_token.len(), 32);
    assert!(a.access_token.chars().all(|c| c.is_ascii_hexdigit() && !c.is_ascii_uppercase()));
    // two draws are distinct in practice; a collision would rebind
    assert_ne!(a.access_token, b.access_token);
}

#[test]
fn login_binds_a_fresh_token_and_logout_revokes_it() {
    let mut registry = AppRegistry::new();
    let user = registry.user_repository.create(CreateUser {
        name: "dora".to_string(),
        email: "dora@example.com".to_string(),
        password: "open sesame".to_string(),
    });

    let res = login(&mut registry, LoginRequest {
        email: "dora@example.com".to_string(),
        password: "wrong".to_string(),
    });
    assert!(matches!(res, Err(AppError::UnauthenticatedError)));

    let res = login(&mut registry, LoginRequest {
        email: "nobody@example.com".to_string(),
        password: "open sesame".to_string(),
    });
    assert!(matches!(res, Err(AppError::UnauthenticatedError)));

    let issued = login(&mut registry, LoginRequest {
        email: "dora@example.com".to_string(),
        password: "open sesame".to_string(),
    })
    .unwrap();
    assert_eq!(issued.user_id, user.id);
    assert_eq!(issued.access_token.len(), 32);

    let header = format!("Bearer {}", issued.access_token);
    let resolved = resolve_identity(
        Some(header.as_str()),
        &registry.auth_repository,
        &registry.user_repository,
    )
    .unwrap();
    assert_eq!(resolved.user.id, user.id);

    logout(&resolved, &mut registry);
    let res = resolve_identity(
        Some(header.as_str()),
        &registry.auth_repository,
        &registry.user_repository,
    );
    assert!(matches!(res, Err(AppError::UnauthenticatedError)));
}

#[test]
fn is_admin_follows_the_role() {
    let admin = AuthorizedUser {
        access_token: AccessToken("t".to_string()),
        user: User {
            id: UserId(1),
            name: "root".to_string(),
            email: "root@example.com".to_string(),
            role: Role::Admin,
        },
    };
    assert!(admin.is_admin());
}
