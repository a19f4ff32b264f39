//! Request and response shapes of the surface layer, with their
//! validation rules, and the conversions into domain events.

use vstd::prelude::*;
use vstd::std_specs::convert::FromSpecImpl;
use vstd::string::StrSliceExecFns;
use crate::book::{Book, BookListOptions, Checkout, CreateBook, PaginatedList, UpdateBook};
use crate::error::AppError;
use crate::id::{BookId, CheckoutId, UserId};
use crate::role::{Role, RoleName};
use crate::user::{BookOwner, CheckoutUser, CreateUser, UpdateUserPassword, UpdateUserRole, User};

verus! {

/// True when the text has a separator with a non-empty user part before
/// it and a non-empty domain part after it: the shape registration
/// requires of an email address.
pub open spec fn valid_email(s: Seq<char>) -> bool {
    exists|i: int| 0 < i < s.len() - 1 && s[i] == '@'
}

/// Decides `valid_email` for a given text.
pub fn check_email(s: &str) -> (r: bool)
    ensures
        r == valid_email(s@),
{
    let len = s.unicode_len();
    let mut i: usize = 0;
    let mut found = false;
    while i < len
        invariant
            len == s@.len(),
            i <= len,
            found == exists|k: int| 0 < k < i && k < s@.len() - 1 && #[trigger] s@[k] == '@',
        decreases len - i,
    {
        if i > 0 && i + 1 < len && s.get_char(i) == '@' {
            found = true;
        }
        i = i + 1;
    }
    found
}

/// A login request: the credentials a token is issued against.
pub struct LoginRequest {
    pub email: String,
    pub password: String,
}

/// The issued token beside the user it identifies.
pub struct AccessTokenResponse {
    pub user_id: UserId,
    pub access_token: String,
}

/// Registration request for a book.
pub struct CreateBookRequest {
    pub title: String,
    pub author: String,
    pub isbn: String,
    pub description: String,
}

impl CreateBookRequest {
    /// Title, author and isbn must be non-empty; the description may be
    /// anything.
    pub open spec fn valid(&self) -> bool {
        self.title@.len() >= 1 && self.author@.len() >= 1 && self.isbn@.len() >= 1
    }

    pub fn validate(&self) -> (r: Result<(), AppError>)
        ensures
            r is Ok <==> self.valid(),
            r is Err ==> r matches Err(AppError::ValidationError(_)),
    {
        if self.title.as_str().is_empty() || self.author.as_str().is_empty()
            || self.isbn.as_str().is_empty() {
            Err(AppError::ValidationError("title, author and isbn must not be empty".to_owned()))
        } else {
            Ok(())
        }
    }
}

impl From<CreateBookRequest> for CreateBook {
    fn from(value: CreateBookRequest) -> (r: CreateBook) {
        let CreateBookRequest { title, author, isbn, description } = value;
        CreateBook { title, author, isbn, description }
    }
}

impl FromSpecImpl<CreateBookRequest> for CreateBook {
    open spec fn obeys_from_spec() -> bool {
        true
    }

    open spec fn from_spec(value: CreateBookRequest) -> CreateBook {
        CreateBook {
            title: value.title,
            author: value.author,
            isbn: value.isbn,
            description: value.description,
        }
    }
}

/// Edit request for a book; the ids arrive separately from the path and
/// the principal.
pub struct UpdateBookRequest {
    pub title: String,
    pub author: String,
    pub isbn: String,
    pub description: String,
}

impl UpdateBookRequest {
    /// The same shape rule as registration.
    pub open spec fn valid(&self) -> bool {
        self.title@.len() >= 1 && self.author@.len() >= 1 && self.isbn@.len() >= 1
    }

    pub fn validate(&self) -> (r: Result<(), AppError>)
        ensures
            r is Ok <==> self.valid(),
            r is Err ==> r matches Err(AppError::ValidationError(_)),
    {
        if self.title.as_str().is_empty() || self.author.as_str().is_empty()
            || self.isbn.as_str().is_empty() {
            Err(AppError::ValidationError("title, author and isbn must not be empty".to_owned()))
        } else {
            Ok(())
        }
    }
}

/// An edit request joined with the target book and the requesting user.
pub struct UpdateBookRequestWithIds(pub BookId, pub UserId, pub UpdateBookRequest);

impl UpdateBookRequestWithIds {
    pub fn new(book_id: BookId, user_id: UserId, request: UpdateBookRequest) -> (r: Self)
        ensures
            r == UpdateBookRequestWithIds(book_id, user_id, request),
    {
        UpdateBookRequestWithIds(book_id, user_id, request)
    }
}

impl From<UpdateBookRequestWithIds> for UpdateBook {
    fn from(value: UpdateBookRequestWithIds) -> (r: UpdateBook) {
        let UpdateBookRequestWithIds(book_id, user_id, request) = value;
        let UpdateBookRequest { title, author, isbn, description } = request;
        UpdateBook { book_id, title, author, isbn, description, requested_user: user_id }
    }
}

impl FromSpecImpl<UpdateBookRequestWithIds> for UpdateBook {
    open spec fn obeys_from_spec() -> bool {
        true
    }

    open spec fn from_spec(value: UpdateBookRequestWithIds) -> UpdateBook {
        UpdateBook {
            book_id: value.0,
            title: value.2.title,
            author: value.2.author,
            isbn: value.2.isbn,
            description: value.2.description,
            requested_user: value.1,
        }
    }
}

/// The window a list request asks for; both bounds must be
/// non-negative.
pub struct BookListQuery {
    pub limit: i64,
    pub offset: i64,
}

pub const DEFAULT_LIMIT: i64 = 20;

/// The page size used when a list request names none.
pub fn default_limit() -> (r: i64)
    ensures
        r == DEFAULT_LIMIT,
{
    DEFAULT_LIMIT
}

impl BookListQuery {
    pub open spec fn valid(&self) -> bool {
        self.limit >= 0 && self.offset >= 0
    }

    pub fn validate(&self) -> (r: Result<(), AppError>)
        ensures
            r is Ok <==> self.valid(),
            r is Err ==> r matches Err(AppError::ValidationError(_)),
    {
        if self.limit < 0 || self.offset < 0 {
            Err(AppError::ValidationError("limit and offset must not be negative".to_owned()))
        } else {
            Ok(())
        }
    }
}

impl From<BookListQuery> for BookListOptions {
    fn from(value: BookListQuery) -> (r: BookListOptions) {
        BookListOptions { limit: value.limit, offset: value.offset }
    }
}

impl FromSpecImpl<BookListQuery> for BookListOptions {
    open spec fn obeys_from_spec() -> bool {
        true
    }

    open spec fn from_spec(value: BookListQuery) -> BookListOptions {
        BookListOptions { limit: value.limit, offset: value.offset }
    }
}

/// A checkout as a book response carries it.
pub struct BookCheckoutResponse {
    pub checkout_id: CheckoutId,
    pub checked_out_by: CheckoutUser,
    pub checked_out_at: i64,
}

/// The response view of a checkout.
pub open spec fn spec_checkout_response_of(value: Checkout) -> BookCheckoutResponse {
    BookCheckoutResponse {
        checkout_id: value.checkout_id,
        checked_out_by: value.checked_out_by,
        checked_out_at: value.checked_out_at,
    }
}

impl From<Checkout> for BookCheckoutResponse {
    fn from(value: Checkout) -> (r: BookCheckoutResponse) {
        BookCheckoutResponse {
            checkout_id: value.checkout_id,
            checked_out_by: value.checked_out_by,
            checked_out_at: value.checked_out_at,
        }
    }
}

impl FromSpecImpl<Checkout> for BookCheckoutResponse {
    open spec fn obeys_from_spec() -> bool {
        true
    }

    open spec fn from_spec(value: Checkout) -> BookCheckoutResponse {
        spec_checkout_response_of(value)
    }
}

/// A book as list and lookup responses carry it.
pub struct BookResponse {
    pub book_id: BookId,
    pub title: String,
    pub author: String,
    pub isbn: String,
    pub description: String,
    pub owner: BookOwner,
    pub checkout: Option<BookCheckoutResponse>,
}

/// The response view of a book.
pub open spec fn spec_book_response_of(value: Book) -> BookResponse {
    BookResponse {
        book_id: value.book_id,
        title: value.title,
        author: value.author,
        isbn: value.isbn,
        description: value.description,
        owner: value.owner,
        checkout: match value.checkout {
            Some(c) => Some(spec_checkout_response_of(c)),
            None => None,
        },
    }
}

impl From<Book> for BookResponse {
    fn from(value: Book) -> (r: BookResponse) {
        let Book { book_id, title, author, isbn, description, owner, checkout } = value;
        BookResponse {
            book_id,
            title,
            author,
            isbn,
            description,
            owner,
            checkout: match checkout {
                Some(c) => Some(BookCheckoutResponse::from(c)),
                None => None,
            },
        }
    }
}

impl FromSpecImpl<Book> for BookResponse {
    open spec fn obeys_from_spec() -> bool {
        true
    }

    open spec fn from_spec(value: Book) -> BookResponse {
        spec_book_response_of(value)
    }
}

/// The pagination envelope as a list response carries it.
pub struct PaginatedBookResponse {
    pub total: i64,
    pub limit: i64,
    pub offset: i64,
    pub books: Vec<BookResponse>,
}

impl PaginatedBookResponse {
    /// The response view of a paginated listing: the envelope copied,
    /// each book mapped to its response view. (A `From` impl cannot
    /// carry this contract, since the mapped vector has no spec-level
    /// constructor.)
    pub fn from_list(value: PaginatedList<Book>) -> (r: PaginatedBookResponse)
        ensures
            r.total == value.total,
            r.limit == value.limit,
            r.offset == value.offset,
            r.books@.len() == value.items@.len(),
            forall|k: int|
                0 <= k < value.items@.len() ==> r.books@[k] == spec_book_response_of(
                    #[trigger] value.items@[k],
                ),
    {
        let PaginatedList { total, limit, offset, items } = value;
        let mut books: Vec<BookResponse> = Vec::new();
        let n = items.len();
        let ghost items_view = items@;
        let mut it = items;
        let mut j: usize = 0;
        while j < n
            invariant
                n == items_view.len(),
                it@ == items_view.skip(j as int),
                j <= n,
                books@.len() == j,
                forall|k: int|
                    0 <= k < j ==> books@[k] == spec_book_response_of(#[trigger] items_view[k]),
            decreases n - j,
        {
            let book = it.remove(0);
            proof {
                assert(book == items_view[j as int]);
                assert(it@ =~= items_view.skip(j as int + 1));
            }
            books.push(BookResponse::from(book));
            j = j + 1;
        }
        PaginatedBookResponse { total, limit, offset, books }
    }
}

/// A user as responses carry it.
pub struct UserResponse {
    pub id: UserId,
    pub name: String,
    pub email: String,
    pub role: RoleName,
}

/// The response view of a user.
pub open spec fn spec_user_response_of(user: User) -> UserResponse {
    UserResponse {
        id: user.id,
        name: user.name,
        email: user.email,
        role: match user.role {
            Role::Admin => RoleName::Admin,
            Role::User => RoleName::User,
        },
    }
}

impl From<User> for UserResponse {
    fn from(user: User) -> (r: UserResponse) {
        UserResponse {
            id: user.id,
            name: user.name,
            email: user.email,
            role: RoleName::from(user.role),
        }
    }
}

impl FromSpecImpl<User> for UserResponse {
    open spec fn obeys_from_spec() -> bool {
        true
    }

    open spec fn from_spec(user: User) -> UserResponse {
        spec_user_response_of(user)
    }
}

/// The user listing.
pub struct UsersResponse {
    pub items: Vec<UserResponse>,
}

/// Registration request for a user.
pub struct CreateUserRequest {
    pub name: String,
    pub email: String,
    pub password: String,
}

impl CreateUserRequest {
    /// Name and password must be non-empty; the email must have the
    /// address shape of `valid_email`.
    pub open spec fn valid(&self) -> bool {
        self.name@.len() >= 1 && valid_email(self.email@) && self.password@.len() >= 1
    }

    pub fn validate(&self) -> (r: Result<(), AppError>)
        ensures
            r is Ok <==> self.valid(),
            r is Err ==> r matches Err(AppError::ValidationError(_)),
    {
        if self.name.as_str().is_empty() || self.password.as_str().is_empty() {
            return Err(
                AppError::ValidationError("name and password must not be empty".to_owned()),
            );
        }
        if !check_email(self.email.as_str()) {
            return Err(AppError::ValidationError("email is not an address".to_owned()));
        }
        Ok(())
    }
}

impl From<CreateUserRequest> for CreateUser {
    fn from(request: CreateUserRequest) -> (r: CreateUser) {
        CreateUser { name: request.name, email: request.email, password: request.password }
    }
}

impl FromSpecImpl<CreateUserRequest> for CreateUser {
    open spec fn obeys_from_spec() -> bool {
        true
    }

    open spec fn from_spec(request: CreateUserRequest) -> CreateUser {
        CreateUser { name: request.name, email: request.email, password: request.password }
    }
}

/// Self-service password change request.
pub struct UpdateUserPasswordRequest {
    pub current_password: String,
    pub new_password: String,
}

impl UpdateUserPasswordRequest {
    pub open spec fn valid(&self) -> bool {
        self.current_password@.len() >= 1 && self.new_password@.len() >= 1
    }

    pub fn validate(&self) -> (r: Result<(), AppError>)
        ensures
            r is Ok <==> self.valid(),
            r is Err ==> r matches Err(AppError::ValidationError(_)),
    {
        if self.current_password.as_str().is_empty() || self.new_password.as_str().is_empty() {
            Err(AppError::ValidationError("passwords must not be empty".to_owned()))
        } else {
            Ok(())
        }
    }
}

/// A password change joined with the caller's own id — never an id
/// supplied as input.
pub struct UpdateUserPasswordRequestWithUserId(pub UserId, pub UpdateUserPasswordRequest);

impl UpdateUserPasswordRequestWithUserId {
    pub fn new(user_id: UserId, request: UpdateUserPasswordRequest) -> (r: Self)
        ensures
            r == UpdateUserPasswordRequestWithUserId(user_id, request),
    {
        UpdateUserPasswordRequestWithUserId(user_id, request)
    }
}

impl From<UpdateUserPasswordRequestWithUserId> for UpdateUserPassword {
    fn from(request: UpdateUserPasswordRequestWithUserId) -> (r: UpdateUserPassword) {
        let UpdateUserPasswordRequestWithUserId(user_id, body) = request;
        let UpdateUserPasswordRequest { current_password, new_password } = body;
        UpdateUserPassword { user_id, current_password, new_password }
    }
}

impl FromSpecImpl<UpdateUserPasswordRequestWithUserId> for UpdateUserPassword {
    open spec fn obeys_from_spec() -> bool {
        true
    }

    open spec fn from_spec(request: UpdateUserPasswordRequestWithUserId) -> UpdateUserPassword {
        UpdateUserPassword {
            user_id: request.0,
            current_password: request.1.current_password,
            new_password: request.1.new_password,
        }
    }
}

/// Role change request.
pub struct UpdateUserRoleRequest {
    pub role: RoleName,
}

/// A role change joined with the target user id from the path.
pub struct UpdateUserRoleRequestWithUserId(pub UserId, pub UpdateUserRoleRequest);

impl UpdateUserRoleRequestWithUserId {
    pub fn new(user_id: UserId, request: UpdateUserRoleRequest) -> (r: Self)
        ensures
            r == UpdateUserRoleRequestWithUserId(user_id, request),
    {
        UpdateUserRoleRequestWithUserId(user_id, request)
    }
}

impl From<UpdateUserRoleRequestWithUserId> for UpdateUserRole {
    fn from(request: UpdateUserRoleRequestWithUserId) -> (r: UpdateUserRole) {
        let UpdateUserRoleRequestWithUserId(user_id, body) = request;
        UpdateUserRole { user_id, role: Role::from(body.role) }
    }
}

impl FromSpecImpl<UpdateUserRoleRequestWithUserId> for UpdateUserRole {
    open spec fn obeys_from_spec() -> bool {
        true
    }

    open spec fn from_spec(request: UpdateUserRoleRequestWithUserId) -> UpdateUserRole {
        UpdateUserRole {
            user_id: request.0,
            role: match request.1.role {
                RoleName::Admin => Role::Admin,
                RoleName::User => Role::User,
            },
        }
    }
}

} // verus!
