//! The request handlers: each one takes the already-resolved principal
//! and plain request values, applies validation and the authorization
//! gate, and drives the stores. The transport layer above only decodes
//! requests, resolves identity, and encodes what comes back.

use vstd::prelude::*;
use crate::auth::AuthorizedUser;
use crate::book::{
    BookListOptions, BookRow, Checkout, CreateBook, DeleteBook, UpdateBook,
    spec_book_of_row,
};
use crate::book_repo::{owner_matches, spec_find_row, spec_page_len, spec_row_updated};
use crate::checkout_repo::{
    CheckoutRecord, CreateCheckout, UpdateReturned, active_matches, checkout_of, has_active,
    spec_find_active_by_book, spec_history_by_book, spec_record_returned, spec_unreturned_all,
    spec_unreturned_by_user,
};
use crate::clock::current_timestamp_millis;
use crate::error::AppError;
use crate::id::{BookId, CheckoutId, UserId};
use crate::registry::AppRegistry;
use crate::requests::{
    AccessTokenResponse, BookListQuery, BookResponse, CreateBookRequest, CreateUserRequest,
    LoginRequest, PaginatedBookResponse, UpdateBookRequest, UpdateBookRequestWithIds,
    UpdateUserPasswordRequest, UpdateUserPasswordRequestWithUserId, UpdateUserRoleRequest,
    UpdateUserRoleRequestWithUserId, UserResponse, UsersResponse, spec_book_response_of,
    spec_user_response_of,
};
use crate::role::{Role, RoleName};
use crate::user::{CreateUser, DeleteUser, UpdateUserPassword, UpdateUserRole, User};
use crate::user_repo::{
    UserRecord, spec_find_by_email, spec_find_record, spec_record_with_password,
    spec_record_with_role, user_present,
};
use crate::auth::{AccessToken, CreateToken, spec_lookup};

verus! {

/// Registers a book owned by the caller. Rejected requests leave every
/// store untouched.
pub fn register_book(
    user: &AuthorizedUser,
    registry: &mut AppRegistry,
    req: CreateBookRequest,
) -> (r: Result<(), AppError>)
    requires
        old(registry).wf(),
        old(registry).book_repository.next_book_id < i64::MAX,
    ensures
        final(registry).wf(),
        r is Ok <==> req.valid(),
        !req.valid() ==> {
            &&& r matches Err(AppError::ValidationError(_))
            &&& *final(registry) == *old(registry)
        },
        req.valid() ==> {
            &&& final(registry).book_repository.rows@ == old(
                registry,
            ).book_repository.rows@.push(
                BookRow {
                    book_id: BookId(old(registry).book_repository.next_book_id),
                    title: req.title,
                    author: req.author,
                    isbn: req.isbn,
                    description: req.description,
                    owned_by: user.user.id,
                    owner_name: user.user.name,
                },
            )
            &&& final(registry).checkout_repository == old(registry).checkout_repository
            &&& final(registry).user_repository == old(registry).user_repository
            &&& final(registry).auth_repository == old(registry).auth_repository
        },
{
    match req.validate() {
        Err(e) => Err(e),
        Ok(()) => {
            let owner_name = user.user.name.clone();
            let user_id = user.id();
            let _ = registry.book_repository.create(CreateBook::from(req), user_id, owner_name);
            Ok(())
        },
    }
}

/// Lists books as the query's window asks, newest first.
pub fn show_book_list(
    _user: &AuthorizedUser,
    query: BookListQuery,
    registry: &AppRegistry,
) -> (r: Result<PaginatedBookResponse, AppError>)
    requires
        registry.wf(),
    ensures
        r is Ok <==> query.valid(),
        !query.valid() ==> r matches Err(AppError::ValidationError(_)),
        query.valid() ==> (r matches Ok(resp) && {
            let rows = registry.book_repository.rows@;
            &&& resp.total == rows.len()
            &&& resp.limit == query.limit
            &&& resp.offset == query.offset
            &&& resp.books@.len() == spec_page_len(
                rows.len() as int,
                query.limit as int,
                query.offset as int,
            )
            &&& forall|k: int|
                0 <= k < resp.books@.len() ==> resp.books@[k] == spec_book_response_of(
                    spec_book_of_row(rows[rows.len() - 1 - query.offset - k], None::<Checkout>),
                )
        }),
{
    match query.validate() {
        Err(e) => Err(e),
        Ok(()) => {
            let list = registry.book_repository.find_all(BookListOptions::from(query));
            let ghost items_view = list.items@;
            let resp = PaginatedBookResponse::from_list(list);
            proof {
                let rows = registry.book_repository.rows@;
                assert forall|k: int|
                    0 <= k < resp.books@.len() implies resp.books@[k] == spec_book_response_of(
                    spec_book_of_row(rows[rows.len() - 1 - query.offset - k], None::<Checkout>),
                ) by {
                    assert(items_view[k] == spec_book_of_row(
                        rows[rows.len() - 1 - query.offset - k],
                        None::<Checkout>,
                    ));
                    assert(resp.books@[k] == spec_book_response_of(items_view[k]));
                }
            }
            Ok(resp)
        },
    }
}

/// Looks one book up, its current checkout joined in; an absent book is
/// `EntityNotFound`.
pub fn show_book(
    _user: &AuthorizedUser,
    book_id: BookId,
    registry: &AppRegistry,
) -> (r: Result<BookResponse, AppError>)
    requires
        registry.wf(),
    ensures
        match spec_find_row(registry.book_repository.rows@, book_id) {
            None => r matches Err(AppError::EntityNotFound(_)),
            Some(row) => r matches Ok(resp) && resp == spec_book_response_of(
                spec_book_of_row(
                    row,
                    match spec_find_active_by_book(registry.checkout_repository.rows@, book_id) {
                        Some(rec) => Some(checkout_of(rec)),
                        None => None,
                    },
                ),
            ),
        },
{
    match registry.book_repository.find_by_id(book_id) {
        None => Err(AppError::EntityNotFound("Book not found".to_owned())),
        Some(row) => {
            let checkout = match registry.checkout_repository.find_active_by_book_id(book_id) {
                Some(co_row) => Some(Checkout::from(co_row)),
                None => None,
            };
            Ok(BookResponse::from(row.into_book(checkout)))
        },
    }
}

/// Edits a book: the write succeeds exactly when the caller is the
/// recorded owner, and a miss — absent or foreign — is one collapsed
/// `EntityNotFound` that changes nothing.
pub fn update_book(
    user: &AuthorizedUser,
    book_id: BookId,
    registry: &mut AppRegistry,
    req: UpdateBookRequest,
) -> (r: Result<(), AppError>)
    requires
        old(registry).wf(),
    ensures
        final(registry).wf(),
        final(registry).checkout_repository == old(registry).checkout_repository,
        final(registry).user_repository == old(registry).user_repository,
        final(registry).auth_repository == old(registry).auth_repository,
        !req.valid() ==> {
            &&& r matches Err(AppError::ValidationError(_))
            &&& *final(registry) == *old(registry)
        },
        req.valid() ==> {
            let rows = old(registry).book_repository.rows@;
            let event = UpdateBook {
                book_id,
                title: req.title,
                author: req.author,
                isbn: req.isbn,
                description: req.description,
                requested_user: user.user.id,
            };
            &&& (r is Ok <==> owner_matches(rows, book_id, user.user.id))
            &&& !owner_matches(rows, book_id, user.user.id) ==> {
                &&& r matches Err(AppError::EntityNotFound(_))
                &&& *final(registry) == *old(registry)
            }
            &&& owner_matches(rows, book_id, user.user.id) ==> exists|i: int|
                {
                    &&& 0 <= i < rows.len()
                    &&& (#[trigger] rows[i]).book_id == book_id
                    &&& rows[i].owned_by == user.user.id
                    &&& final(registry).book_repository.rows@ == rows.update(
                        i,
                        spec_row_updated(rows[i], event),
                    )
                }
        },
{
    match req.validate() {
        Err(e) => Err(e),
        Ok(()) => {
            let user_id = user.id();
            let event = UpdateBook::from(UpdateBookRequestWithIds::new(book_id, user_id, req));
            registry.book_repository.update(event)
        },
    }
}

/// Deletes a book under the same ownership-scoped, collapsed-error rule
/// as `update_book`.
pub fn delete_book(
    user: &AuthorizedUser,
    book_id: BookId,
    registry: &mut AppRegistry,
) -> (r: Result<(), AppError>)
    requires
        old(registry).wf(),
    ensures
        final(registry).wf(),
        final(registry).checkout_repository == old(registry).checkout_repository,
        final(registry).user_repository == old(registry).user_repository,
        final(registry).auth_repository == old(registry).auth_repository,
        r is Ok <==> owner_matches(old(registry).book_repository.rows@, book_id, user.user.id),
        !owner_matches(old(registry).book_repository.rows@, book_id, user.user.id) ==> {
            &&& r matches Err(AppError::EntityNotFound(_))
            &&& *final(registry) == *old(registry)
        },
        owner_matches(old(registry).book_repository.rows@, book_id, user.user.id) ==> exists|
            i: int,
        |
            {
                &&& 0 <= i < old(registry).book_repository.rows@.len()
                &&& (#[trigger] old(registry).book_repository.rows@[i]).book_id == book_id
                &&& old(registry).book_repository.rows@[i].owned_by == user.user.id
                &&& final(registry).book_repository.rows@ == old(
                    registry,
                ).book_repository.rows@.remove(i)
            },
{
    let user_id = user.id();
    registry.book_repository.delete(DeleteBook { book_id, requested_user: user_id })
}

/// Checks a book out to the caller, stamped with the clock's reading.
/// While the book already has an Active checkout the attempt conflicts
/// and changes nothing, so of two attempts exactly one succeeds.
pub fn checkout_book(
    user: &AuthorizedUser,
    book_id: BookId,
    registry: &mut AppRegistry,
) -> (r: Result<(), AppError>)
    requires
        old(registry).wf(),
        old(registry).checkout_repository.next_checkout_id < i64::MAX,
    ensures
        final(registry).wf(),
        final(registry).book_repository == old(registry).book_repository,
        final(registry).user_repository == old(registry).user_repository,
        final(registry).auth_repository == old(registry).auth_repository,
        r is Ok <==> !has_active(old(registry).checkout_repository.rows@, book_id),
        has_active(old(registry).checkout_repository.rows@, book_id) ==> {
            &&& r matches Err(AppError::ResourceConflict(_))
            &&& *final(registry) == *old(registry)
        },
        !has_active(old(registry).checkout_repository.rows@, book_id) ==> exists|t: i64|
            final(registry).checkout_repository.rows@ == #[trigger] old(
                registry,
            ).checkout_repository.rows@.push(
                CheckoutRecord {
                    checkout_id: CheckoutId(old(registry).checkout_repository.next_checkout_id),
                    book_id,
                    checked_out_by: user.user.id,
                    user_name: user.user.name,
                    checked_out_at: t,
                    returned_at: None,
                },
            ),
{
    let at = current_timestamp_millis();
    let user_id = user.id();
    let user_name = user.user.name.clone();
    let event = CreateCheckout::new(book_id, user_id, at);
    match registry.checkout_repository.create(event, user_name) {
        Ok(_) => Ok(()),
        Err(e) => Err(e),
    }
}

/// Returns a checkout: the (checkout, book) pair must identify an
/// Active record, exactly once; anything else is `EntityNotFound` and
/// changes nothing.
pub fn return_book(
    user: &AuthorizedUser,
    book_id: BookId,
    checkout_id: CheckoutId,
    registry: &mut AppRegistry,
) -> (r: Result<(), AppError>)
    requires
        old(registry).wf(),
    ensures
        final(registry).wf(),
        final(registry).book_repository == old(registry).book_repository,
        final(registry).user_repository == old(registry).user_repository,
        final(registry).auth_repository == old(registry).auth_repository,
        r is Ok <==> active_matches(old(registry).checkout_repository.rows@, checkout_id, book_id),
        !active_matches(old(registry).checkout_repository.rows@, checkout_id, book_id) ==> {
            &&& r matches Err(AppError::EntityNotFound(_))
            &&& *final(registry) == *old(registry)
        },
        active_matches(old(registry).checkout_repository.rows@, checkout_id, book_id)
            ==> exists|i: int, t: i64|
            {
                &&& 0 <= i < old(registry).checkout_repository.rows@.len()
                &&& (#[trigger] old(registry).checkout_repository.rows@[i]).checkout_id
                    == checkout_id
                &&& old(registry).checkout_repository.rows@[i].book_id == book_id
                &&& old(registry).checkout_repository.rows@[i].returned_at is None
                &&& final(registry).checkout_repository.rows@ == old(
                    registry,
                ).checkout_repository.rows@.update(
                    i,
                    #[trigger] spec_record_returned(
                        old(registry).checkout_repository.rows@[i],
                        t,
                    ),
                )
            },
{
    let at = current_timestamp_millis();
    let user_id = user.id();
    let event = UpdateReturned::new(checkout_id, book_id, user_id, at);
    registry.checkout_repository.update_returned(event)
}

/// Lists every Active checkout across all books.
pub fn show_checked_out_list(_user: &AuthorizedUser, registry: &AppRegistry) -> (r: Vec<Checkout>)
    ensures
        r@ == spec_unreturned_all(registry.checkout_repository.rows@),
{
    registry.checkout_repository.find_unreturned_all()
}

/// Lists the caller's own Active checkouts.
pub fn get_checkouts(user: &AuthorizedUser, registry: &AppRegistry) -> (r: Vec<Checkout>)
    ensures
        r@ == spec_unreturned_by_user(registry.checkout_repository.rows@, user.user.id),
{
    let user_id = user.id();
    registry.checkout_repository.find_unreturned_by_user_id(user_id)
}

/// Lists a book's full checkout history, Returned records included.
pub fn checkout_history(
    _user: &AuthorizedUser,
    book_id: BookId,
    registry: &AppRegistry,
) -> (r: Vec<CheckoutRecord>)
    ensures
        r@ == spec_history_by_book(registry.checkout_repository.rows@, book_id),
{
    registry.checkout_repository.find_history_by_book_id(book_id)
}

/// Registers a user. Admin-only: the role is examined first, and a
/// non-admin caller gets `ForbiddenOperationError` with nothing written.
pub fn register_user(
    user: &AuthorizedUser,
    registry: &mut AppRegistry,
    req: CreateUserRequest,
) -> (r: Result<UserResponse, AppError>)
    requires
        old(registry).wf(),
        old(registry).user_repository.next_user_id < i64::MAX,
    ensures
        final(registry).wf(),
        user.user.role != Role::Admin ==> {
            &&& r matches Err(AppError::ForbiddenOperationError)
            &&& *final(registry) == *old(registry)
        },
        user.user.role == Role::Admin && !req.valid() ==> {
            &&& r matches Err(AppError::ValidationError(_))
            &&& *final(registry) == *old(registry)
        },
        user.user.role == Role::Admin && req.valid() ==> {
            let created = User {
                id: UserId(old(registry).user_repository.next_user_id),
                name: req.name,
                email: req.email,
                role: Role::User,
            };
            &&& r matches Ok(resp) && resp == spec_user_response_of(created)
            &&& final(registry).user_repository.rows@ == old(
                registry,
            ).user_repository.rows@.push(UserRecord { user: created, password: req.password })
            &&& final(registry).book_repository == old(registry).book_repository
            &&& final(registry).checkout_repository == old(registry).checkout_repository
            &&& final(registry).auth_repository == old(registry).auth_repository
        },
{
    if !user.is_admin() {
        return Err(AppError::ForbiddenOperationError);
    }
    match req.validate() {
        Err(e) => Err(e),
        Ok(()) => {
            let created = registry.user_repository.create(CreateUser::from(req));
            Ok(UserResponse::from(created))
        },
    }
}

/// Lists every registered user.
pub fn list_users(_user: &AuthorizedUser, registry: &AppRegistry) -> (r: UsersResponse)
    ensures
        r.items@.len() == registry.user_repository.rows@.len(),
        forall|k: int|
            0 <= k < r.items@.len() ==> r.items@[k] == spec_user_response_of(
                (#[trigger] registry.user_repository.rows@[k]).user,
            ),
{
    let users = registry.user_repository.find_all();
    let n = users.len();
    let ghost users_view = users@;
    let mut it = users;
    let mut items: Vec<UserResponse> = Vec::new();
    let mut j: usize = 0;
    while j < n
        invariant
            n == users_view.len(),
            it@ == users_view.skip(j as int),
            j <= n,
            items@.len() == j,
            forall|k: int|
                0 <= k < j ==> items@[k] == spec_user_response_of(#[trigger] users_view[k]),
        decreases n - j,
    {
        let u = it.remove(0);
        proof {
            assert(u == users_view[j as int]);
            assert(it@ =~= users_view.skip(j as int + 1));
        }
        items.push(UserResponse::from(u));
        j = j + 1;
    }
    UsersResponse { items }
}

/// Deletes a user. Admin-only; a non-admin caller changes nothing.
pub fn delete_user(
    user: &AuthorizedUser,
    user_id: UserId,
    registry: &mut AppRegistry,
) -> (r: Result<(), AppError>)
    requires
        old(registry).wf(),
    ensures
        final(registry).wf(),
        final(registry).book_repository == old(registry).book_repository,
        final(registry).checkout_repository == old(registry).checkout_repository,
        final(registry).auth_repository == old(registry).auth_repository,
        user.user.role != Role::Admin ==> {
            &&& r matches Err(AppError::ForbiddenOperationError)
            &&& *final(registry) == *old(registry)
        },
        user.user.role == Role::Admin ==> {
            &&& (r is Ok <==> user_present(old(registry).user_repository.rows@, user_id))
            &&& !user_present(old(registry).user_repository.rows@, user_id) ==> {
                &&& r matches Err(AppError::EntityNotFound(_))
                &&& *final(registry) == *old(registry)
            }
            &&& user_present(old(registry).user_repository.rows@, user_id) ==> exists|i: int|
                {
                    &&& 0 <= i < old(registry).user_repository.rows@.len()
                    &&& (#[trigger] old(registry).user_repository.rows@[i]).user.id == user_id
                    &&& final(registry).user_repository.rows@ == old(
                        registry,
                    ).user_repository.rows@.remove(i)
                }
        },
{
    if !user.is_admin() {
        return Err(AppError::ForbiddenOperationError);
    }
    registry.user_repository.delete(DeleteUser { user_id })
}

/// Changes another user's role. Admin-only; a non-admin caller changes
/// nothing.
pub fn change_role(
    user: &AuthorizedUser,
    user_id: UserId,
    registry: &mut AppRegistry,
    req: UpdateUserRoleRequest,
) -> (r: Result<(), AppError>)
    requires
        old(registry).wf(),
    ensures
        final(registry).wf(),
        final(registry).book_repository == old(registry).book_repository,
        final(registry).checkout_repository == old(registry).checkout_repository,
        final(registry).auth_repository == old(registry).auth_repository,
        user.user.role != Role::Admin ==> {
            &&& r matches Err(AppError::ForbiddenOperationError)
            &&& *final(registry) == *old(registry)
        },
        user.user.role == Role::Admin ==> {
            let role = match req.role {
                RoleName::Admin => Role::Admin,
                RoleName::User => Role::User,
            };
            &&& (r is Ok <==> user_present(old(registry).user_repository.rows@, user_id))
            &&& !user_present(old(registry).user_repository.rows@, user_id) ==> {
                &&& r matches Err(AppError::EntityNotFound(_))
                &&& *final(registry) == *old(registry)
            }
            &&& user_present(old(registry).user_repository.rows@, user_id) ==> exists|i: int|
                {
                    &&& 0 <= i < old(registry).user_repository.rows@.len()
                    &&& (#[trigger] old(registry).user_repository.rows@[i]).user.id == user_id
                    &&& final(registry).user_repository.rows@ == old(
                        registry,
                    ).user_repository.rows@.update(
                        i,
                        spec_record_with_role(old(registry).user_repository.rows@[i], role),
                    )
                }
        },
{
    if !user.is_admin() {
        return Err(AppError::ForbiddenOperationError);
    }
    let event = UpdateUserRole::from(UpdateUserRoleRequestWithUserId::new(user_id, req));
    registry.user_repository.update_role(event)
}

/// Logs a user in: the credentials must name a stored user by email
/// with the matching password; a fresh opaque token is then bound to
/// that user and handed back. Every other token's binding is untouched.
pub fn login(registry: &mut AppRegistry, req: LoginRequest) -> (r: Result<
    AccessTokenResponse,
    AppError,
>)
    requires
        old(registry).wf(),
    ensures
        final(registry).wf(),
        final(registry).book_repository == old(registry).book_repository,
        final(registry).checkout_repository == old(registry).checkout_repository,
        final(registry).user_repository == old(registry).user_repository,
        match spec_find_by_email(old(registry).user_repository.rows@, req.email@) {
            None => {
                &&& r matches Err(AppError::UnauthenticatedError)
                &&& *final(registry) == *old(registry)
            },
            Some(rec) => {
                if rec.password@ == req.password@ {
                    r matches Ok(resp) && {
                        &&& resp.user_id == rec.user.id
                        &&& resp.access_token@.len() == 32
                        &&& spec_lookup(final(registry).auth_repository.bindings@,
                            resp.access_token@) == Some(rec.user.id)
                        &&& forall|t: Seq<char>|
                            t != resp.access_token@ ==> #[trigger] spec_lookup(
                                final(registry).auth_repository.bindings@,
                                t,
                            ) == spec_lookup(old(registry).auth_repository.bindings@, t)
                    }
                } else {
                    &&& r matches Err(AppError::UnauthenticatedError)
                    &&& *final(registry) == *old(registry)
                }
            },
        },
{
    match registry.user_repository.find_by_email(&req.email) {
        None => Err(AppError::UnauthenticatedError),
        Some(rec) => {
            if rec.password == req.password {
                let created = CreateToken::new(rec.user.id);
                let token_text = created.access_token;
                let token_copy = AccessToken(token_text.clone());
                registry.auth_repository.bind(token_copy, rec.user.id);
                Ok(AccessTokenResponse { user_id: rec.user.id, access_token: token_text })
            } else {
                Err(AppError::UnauthenticatedError)
            }
        },
    }
}

/// Logs the caller out: the presented token is revoked and afterwards
/// identifies nobody, while every other token's binding is untouched.
pub fn logout(user: &AuthorizedUser, registry: &mut AppRegistry)
    requires
        old(registry).wf(),
    ensures
        final(registry).wf(),
        final(registry).book_repository == old(registry).book_repository,
        final(registry).checkout_repository == old(registry).checkout_repository,
        final(registry).user_repository == old(registry).user_repository,
        spec_lookup(final(registry).auth_repository.bindings@, user.access_token.0@) is None,
        forall|t: Seq<char>|
            t != user.access_token.0@ ==> #[trigger] spec_lookup(
                final(registry).auth_repository.bindings@,
                t,
            ) == spec_lookup(old(registry).auth_repository.bindings@, t),
{
    registry.auth_repository.revoke(&user.access_token);
}

/// The caller's own profile; self-service, so no gate.
pub fn get_current_user(user: AuthorizedUser) -> (r: UserResponse)
    ensures
        r == spec_user_response_of(user.user),
{
    UserResponse::from(user.user)
}

/// Changes the caller's own password; self-service, keyed by the
/// caller's own id, never an id supplied as input.
pub fn change_password(
    user: &AuthorizedUser,
    registry: &mut AppRegistry,
    req: UpdateUserPasswordRequest,
) -> (r: Result<(), AppError>)
    requires
        old(registry).wf(),
    ensures
        final(registry).wf(),
        final(registry).book_repository == old(registry).book_repository,
        final(registry).checkout_repository == old(registry).checkout_repository,
        final(registry).auth_repository == old(registry).auth_repository,
        !req.valid() ==> {
            &&& r matches Err(AppError::ValidationError(_))
            &&& *final(registry) == *old(registry)
        },
        req.valid() ==> match spec_find_record(old(registry).user_repository.rows@, user.user.id) {
            None => {
                &&& r matches Err(AppError::EntityNotFound(_))
                &&& *final(registry) == *old(registry)
            },
            Some(rec) => {
                if rec.password@ == req.current_password@ {
                    &&& r is Ok
                    &&& exists|i: int|
                        {
                            &&& 0 <= i < old(registry).user_repository.rows@.len()
                            &&& #[trigger] old(registry).user_repository.rows@[i] == rec
                            &&& final(registry).user_repository.rows@ == old(
                                registry,
                            ).user_repository.rows@.update(
                                i,
                                spec_record_with_password(rec, req.new_password),
                            )
                        }
                } else {
                    &&& r matches Err(AppError::UnauthenticatedError)
                    &&& *final(registry) == *old(registry)
                }
            },
        },
{
    match req.validate() {
        Err(e) => Err(e),
        Ok(()) => {
            let user_id = user.id();
            let event = UpdateUserPassword::from(
                UpdateUserPasswordRequestWithUserId::new(user_id, req),
            );
            registry.user_repository.update_password(event)
        },
    }
}

} // verus!
