//! The book entity, its events, the read-side rows the book store keeps,
//! and the pagination envelope for list queries.

use vstd::prelude::*;
use vstd::std_specs::convert::FromSpecImpl;
use crate::id::{BookId, CheckoutId, UserId};
use crate::user::{BookOwner, CheckoutUser};

verus! {

/// A currently-held checkout as it appears joined into a book: who holds
/// the book and since when (milliseconds since the epoch).
#[derive(Debug)]
pub struct Checkout {
    pub checkout_id: CheckoutId,
    pub checked_out_by: CheckoutUser,
    pub checked_out_at: i64,
}

impl Clone for Checkout {
    fn clone(&self) -> (r: Self)
        ensures
            r == *self,
    {
        Checkout {
            checkout_id: self.checkout_id,
            checked_out_by: self.checked_out_by.clone(),
            checked_out_at: self.checked_out_at,
        }
    }
}

/// A book as the domain sees it: its descriptive fields, the owner
/// snapshot, and the current checkout when the book is presently held.
#[derive(Debug)]
pub struct Book {
    pub book_id: BookId,
    pub title: String,
    pub author: String,
    pub isbn: String,
    pub description: String,
    pub owner: BookOwner,
    pub checkout: Option<Checkout>,
}

/// Registration event: the descriptive fields of a new book. The owner is
/// supplied separately by the call site, from the authenticated principal.
pub struct CreateBook {
    pub title: String,
    pub author: String,
    pub isbn: String,
    pub description: String,
}

/// Ownership-scoped update event: carries the target book id and the
/// requesting user, so the store can fuse the ownership check with the
/// write.
#[derive(Debug)]
pub struct UpdateBook {
    pub book_id: BookId,
    pub title: String,
    pub author: String,
    pub isbn: String,
    pub description: String,
    pub requested_user: UserId,
}

/// Ownership-scoped deletion event.
#[derive(Debug)]
pub struct DeleteBook {
    pub book_id: BookId,
    pub requested_user: UserId,
}

/// The window a list query asks for.
pub struct BookListOptions {
    pub limit: i64,
    pub offset: i64,
}

/// The envelope of a windowed list query: `total` counts the full set,
/// independent of the page size; `items` is the contiguous window that
/// was actually returned, newest first.
pub struct PaginatedList<T> {
    pub total: i64,
    pub limit: i64,
    pub offset: i64,
    pub items: Vec<T>,
}

/// A stored book row: the descriptive fields plus the owner snapshot
/// taken at registration.
#[derive(Debug)]
pub struct BookRow {
    pub book_id: BookId,
    pub title: String,
    pub author: String,
    pub isbn: String,
    pub description: String,
    pub owned_by: UserId,
    pub owner_name: String,
}

impl Clone for BookRow {
    fn clone(&self) -> (r: Self)
        ensures
            r == *self,
    {
        BookRow {
            book_id: self.book_id,
            title: self.title.clone(),
            author: self.author.clone(),
            isbn: self.isbn.clone(),
            description: self.description.clone(),
            owned_by: self.owned_by,
            owner_name: self.owner_name.clone(),
        }
    }
}

impl BookRow {
    /// The book this row describes, with the given current checkout
    /// joined in.
    pub fn into_book(self, checkout: Option<Checkout>) -> (r: Book)
        ensures
            r == spec_book_of_row(self, checkout),
    {
        Book {
            book_id: self.book_id,
            title: self.title,
            author: self.author,
            isbn: self.isbn,
            description: self.description,
            owner: BookOwner { user_id: self.owned_by, name: self.owner_name },
            checkout,
        }
    }
}

/// The book a stored row denotes, with a given checkout joined in.
pub open spec fn spec_book_of_row(row: BookRow, checkout: Option<Checkout>) -> Book {
    Book {
        book_id: row.book_id,
        title: row.title,
        author: row.author,
        isbn: row.isbn,
        description: row.description,
        owner: BookOwner { user_id: row.owned_by, name: row.owner_name },
        checkout,
    }
}

/// The counted form of a list-query row: the running total beside the id.
pub struct PaginatedBookRow {
    pub total: i64,
    pub book_id: BookId,
}

/// A currently-held checkout as the checkout store reports it for the
/// join into a book.
#[derive(Debug)]
pub struct BookCheckoutRow {
    pub checkout_id: CheckoutId,
    pub book_id: BookId,
    pub user_id: UserId,
    pub user_name: String,
    pub checked_out_at: i64,
}

impl Clone for BookCheckoutRow {
    fn clone(&self) -> (r: Self)
        ensures
            r == *self,
    {
        BookCheckoutRow {
            checkout_id: self.checkout_id,
            book_id: self.book_id,
            user_id: self.user_id,
            user_name: self.user_name.clone(),
            checked_out_at: self.checked_out_at,
        }
    }
}

impl From<BookCheckoutRow> for Checkout {
    fn from(value: BookCheckoutRow) -> (r: Checkout) {
        Checkout {
            checkout_id: value.checkout_id,
            checked_out_by: CheckoutUser { user_id: value.user_id, name: value.user_name },
            checked_out_at: value.checked_out_at,
        }
    }
}

impl FromSpecImpl<BookCheckoutRow> for Checkout {
    open spec fn obeys_from_spec() -> bool {
        true
    }

    open spec fn from_spec(value: BookCheckoutRow) -> Checkout {
        Checkout {
            checkout_id: value.checkout_id,
            checked_out_by: CheckoutUser { user_id: value.user_id, name: value.user_name },
            checked_out_at: value.checked_out_at,
        }
    }
}

} // verus!
