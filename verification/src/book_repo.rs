//! The book store: create, windowed listing, lookup, and the
//! ownership-scoped mutations.
//!
//! `update` and `delete` are each a single conditional mutation over
//! "id and recorded owner", so the ownership check is atomic with the
//! write; a zero-row match collapses "absent" and "not the owner" into
//! one `EntityNotFound` outcome on purpose.

use vstd::prelude::*;
use crate::book::{
    Book, BookListOptions, BookRow, Checkout, CreateBook, DeleteBook, PaginatedList, UpdateBook,
    spec_book_of_row,
};
use crate::error::AppError;
use crate::id::{BookId, UserId};

verus! {

/// True when no two rows carry the same book id.
pub open spec fn rows_distinct_ids(rows: Seq<BookRow>) -> bool {
    forall|i: int, j: int|
        0 <= i < j < rows.len() ==> (#[trigger] rows[i]).book_id != (#[trigger] rows[j]).book_id
}

/// True when this row is the one an ownership-scoped write may touch:
/// it carries the target id and records the requester as owner.
pub open spec fn row_authorizes(row: BookRow, id: BookId, requester: UserId) -> bool {
    row.book_id == id && row.owned_by == requester
}

/// True when some row carries this id and records this user as owner:
/// the success condition of an ownership-scoped write.
pub open spec fn owner_matches(rows: Seq<BookRow>, id: BookId, requester: UserId) -> bool {
    exists|i: int| 0 <= i < rows.len() && row_authorizes(#[trigger] rows[i], id, requester)
}

/// The first row carrying this id, if any.
pub open spec fn spec_find_row(rows: Seq<BookRow>, id: BookId) -> Option<BookRow>
    decreases rows.len(),
{
    if rows.len() == 0 {
        None
    } else if rows[0].book_id == id {
        Some(rows[0])
    } else {
        spec_find_row(rows.drop_first(), id)
    }
}

/// The row as an owner's update event leaves it: descriptive fields
/// replaced, identity and ownership kept.
pub open spec fn spec_row_updated(row: BookRow, e: UpdateBook) -> BookRow {
    BookRow {
        book_id: row.book_id,
        title: e.title,
        author: e.author,
        isbn: e.isbn,
        description: e.description,
        owned_by: row.owned_by,
        owner_name: row.owner_name,
    }
}

/// How many items a window of `limit` starting at `offset` holds out of
/// `n`: `min(limit, max(0, n - offset))`.
pub open spec fn spec_page_len(n: int, limit: int, offset: int) -> int {
    if offset >= n {
        0
    } else if limit <= n - offset {
        limit
    } else {
        n - offset
    }
}

/// The in-memory book store. Rows sit in creation order, oldest first;
/// ids come from the store's own counter, so they never repeat.
pub struct BookRepositoryImpl {
    pub rows: Vec<BookRow>,
    pub next_book_id: u64,
}

impl BookRepositoryImpl {
    /// Every stored id is unique, was assigned below the counter, and the
    /// counter never outruns what a signed 64-bit total can report.
    pub open spec fn wf(&self) -> bool {
        &&& rows_distinct_ids(self.rows@)
        &&& forall|i: int|
            0 <= i < self.rows@.len() ==> (#[trigger] self.rows@[i]).book_id.0 < self.next_book_id
        &&& self.rows@.len() <= self.next_book_id
        &&& self.next_book_id <= i64::MAX
    }

    pub fn new() -> (r: Self)
        ensures
            r.wf(),
            r.rows@.len() == 0,
            r.next_book_id == 0,
    {
        BookRepositoryImpl { rows: Vec::new(), next_book_id: 0 }
    }

    /// Registers a book owned by `user_id`, with the owner's name taken
    /// as a snapshot. Always succeeds; there is no prior owner to
    /// conflict with. Returns the assigned id.
    pub fn create(&mut self, event: CreateBook, user_id: UserId, owner_name: String) -> (r: BookId)
        requires
            old(self).wf(),
            old(self).next_book_id < i64::MAX,
        ensures
            final(self).wf(),
            r == BookId(old(self).next_book_id),
            final(self).next_book_id == old(self).next_book_id + 1,
            final(self).rows@ == old(self).rows@.push(
                BookRow {
                    book_id: r,
                    title: event.title,
                    author: event.author,
                    isbn: event.isbn,
                    description: event.description,
                    owned_by: user_id,
                    owner_name: owner_name,
                },
            ),
    {
        let id = BookId(self.next_book_id);
        let row = BookRow {
            book_id: id,
            title: event.title,
            author: event.author,
            isbn: event.isbn,
            description: event.description,
            owned_by: user_id,
            owner_name: owner_name,
        };
        self.rows.push(row);
        self.next_book_id = self.next_book_id + 1;
        proof {
            let prev = old(self).rows@;
            assert forall|i: int, j: int|
                0 <= i < j < self.rows@.len() implies self.rows@[i].book_id
                != self.rows@[j].book_id by {
                if j < prev.len() {
                    assert(prev[i].book_id != prev[j].book_id);
                } else {
                    assert(prev[i].book_id.0 < old(self).next_book_id);
                }
            }
        }
        id
    }

    /// Looks a book up by id; an empty result is not an error.
    pub fn find_by_id(&self, id: BookId) -> (r: Option<BookRow>)
        ensures
            r == spec_find_row(self.rows@, id),
    {
        let n = self.rows.len();
        let mut j: usize = 0;
        while j < n
            invariant
                n == self.rows@.len(),
                j <= n,
                forall|k: int| 0 <= k < j ==> #[trigger] self.rows@[k].book_id != id,
            decreases n - j,
        {
            if self.rows[j].book_id == id {
                let row = self.rows[j].clone();
                proof {
                    lemma_find_row_at(self.rows@, j as int, id);
                }
                return Some(row);
            }
            j = j + 1;
        }
        proof {
            lemma_find_row_none(self.rows@, id);
        }
        None
    }

    /// Returns the window `options` asks for, newest first, beside the
    /// total over the full set. The page arithmetic is the stated
    /// `min(limit, max(0, total - offset))`.
    pub fn find_all(&self, options: BookListOptions) -> (r: PaginatedList<Book>)
        requires
            self.wf(),
            options.limit >= 0,
            options.offset >= 0,
        ensures
            r.total == self.rows@.len(),
            r.limit == options.limit,
            r.offset == options.offset,
            r.items@.len() == spec_page_len(
                self.rows@.len() as int,
                options.limit as int,
                options.offset as int,
            ),
            forall|k: int|
                0 <= k < r.items@.len() ==> r.items@[k] == spec_book_of_row(
                    self.rows@[self.rows@.len() - 1 - options.offset - k],
                    None::<Checkout>,
                ),
    {
        let n = self.rows.len();
        let mut items: Vec<Book> = Vec::new();
        if (options.offset as u64) < (n as u64) {
            let offset = options.offset as usize;
            let avail = n - offset;
            let count: usize = if (options.limit as u64) < (avail as u64) {
                options.limit as usize
            } else {
                avail
            };
            let mut k: usize = 0;
            while k < count
                invariant
                    n == self.rows@.len(),
                    offset == options.offset,
                    offset < n,
                    count <= n - offset,
                    count == spec_page_len(n as int, options.limit as int, options.offset as int),
                    k <= count,
                    items@.len() == k,
                    forall|j: int|
                        0 <= j < k ==> items@[j] == spec_book_of_row(
                            self.rows@[n - 1 - offset - j],
                            None::<Checkout>,
                        ),
                decreases count - k,
            {
                let row = self.rows[n - 1 - offset - k].clone();
                items.push(row.into_book(None));
                k = k + 1;
            }
        }
        PaginatedList { total: n as i64, limit: options.limit, offset: options.offset, items }
    }

    /// Updates the descriptive fields of the row matching the event's id
    /// *and* recorded owner, in one conditional mutation. Zero rows
    /// affected — whether the book is absent or owned by someone else —
    /// is the single outcome `EntityNotFound`, and the store is unchanged.
    pub fn update(&mut self, event: UpdateBook) -> (r: Result<(), AppError>)
        requires
            old(self).wf(),
        ensures
            final(self).wf(),
            final(self).next_book_id == old(self).next_book_id,
            r is Ok <==> owner_matches(old(self).rows@, event.book_id, event.requested_user),
            !owner_matches(old(self).rows@, event.book_id, event.requested_user) ==> {
                &&& r matches Err(AppError::EntityNotFound(_))
                &&& *final(self) == *old(self)
            },
            owner_matches(old(self).rows@, event.book_id, event.requested_user) ==> exists|i: int|
                {
                    &&& 0 <= i < old(self).rows@.len()
                    &&& row_authorizes(#[trigger] old(self).rows@[i], event.book_id, event.requested_user)
                    &&& final(self).rows@ == old(self).rows@.update(
                        i,
                        spec_row_updated(old(self).rows@[i], event),
                    )
                },
    {
        let n = self.rows.len();
        let mut j: usize = 0;
        while j < n
            invariant
                *self == *old(self),
                old(self).wf(),
                n == self.rows@.len(),
                j <= n,
                forall|k: int|
                    0 <= k < j ==> !row_authorizes(
                        #[trigger] self.rows@[k],
                        event.book_id,
                        event.requested_user,
                    ),
            decreases n - j,
        {
            if self.rows[j].book_id == event.book_id
                && self.rows[j].owned_by == event.requested_user {
                let book_id = self.rows[j].book_id;
                let owned_by = self.rows[j].owned_by;
                let owner_name = self.rows[j].owner_name.clone();
                self.rows[j] = BookRow {
                    book_id,
                    title: event.title,
                    author: event.author,
                    isbn: event.isbn,
                    description: event.description,
                    owned_by,
                    owner_name,
                };
                proof {
                    let prev = old(self).rows@;
                    assert(row_authorizes(prev[j as int], event.book_id, event.requested_user));
                    assert(self.rows@ == prev.update(
                        j as int,
                        spec_row_updated(prev[j as int], event),
                    ));
                    assert forall|a: int, b: int|
                        0 <= a < b < self.rows@.len() implies self.rows@[a].book_id
                        != self.rows@[b].book_id by {
                        assert(self.rows@[a].book_id == prev[a].book_id);
                        assert(self.rows@[b].book_id == prev[b].book_id);
                        assert(prev[a].book_id != prev[b].book_id);
                    }
                }
                return Ok(());
            }
            j = j + 1;
        }
        proof {
            assert(!owner_matches(self.rows@, event.book_id, event.requested_user));
        }
        Err(AppError::EntityNotFound("Book not found".to_owned()))
    }

    /// Deletes the row matching the event's id *and* recorded owner, in
    /// one conditional mutation, with the same collapsed `EntityNotFound`
    /// outcome as `update` when zero rows match.
    pub fn delete(&mut self, event: DeleteBook) -> (r: Result<(), AppError>)
        requires
            old(self).wf(),
        ensures
            final(self).wf(),
            final(self).next_book_id == old(self).next_book_id,
            r is Ok <==> owner_matches(old(self).rows@, event.book_id, event.requested_user),
            !owner_matches(old(self).rows@, event.book_id, event.requested_user) ==> {
                &&& r matches Err(AppError::EntityNotFound(_))
                &&& *final(self) == *old(self)
            },
            owner_matches(old(self).rows@, event.book_id, event.requested_user) ==> exists|i: int|
                {
                    &&& 0 <= i < old(self).rows@.len()
                    &&& row_authorizes(#[trigger] old(self).rows@[i], event.book_id, event.requested_user)
                    &&& final(self).rows@ == old(self).rows@.remove(i)
                },
    {
        let n = self.rows.len();
        let mut j: usize = 0;
        while j < n
            invariant
                *self == *old(self),
                old(self).wf(),
                n == self.rows@.len(),
                j <= n,
                forall|k: int|
                    0 <= k < j ==> !row_authorizes(
                        #[trigger] self.rows@[k],
                        event.book_id,
                        event.requested_user,
                    ),
            decreases n - j,
        {
            if self.rows[j].book_id == event.book_id
                && self.rows[j].owned_by == event.requested_user {
                let _ = self.rows.remove(j);
                proof {
                    let prev = old(self).rows@;
                    assert(row_authorizes(prev[j as int], event.book_id, event.requested_user));
                    prev.remove_ensures(j as int);
                    assert(self.rows@ == prev.remove(j as int));
                    assert forall|a: int, b: int|
                        0 <= a < b < self.rows@.len() implies self.rows@[a].book_id
                        != self.rows@[b].book_id by {
                        let a0 = if a < j as int { a } else { a + 1 };
                        let b0 = if b < j as int { b } else { b + 1 };
                        assert(prev.remove(j as int)[a] == prev[a0]);
                        assert(prev.remove(j as int)[b] == prev[b0]);
                        assert(prev[a0].book_id != prev[b0].book_id);
                    }
                    assert forall|i: int|
                        0 <= i < self.rows@.len() implies (#[trigger] self.rows@[i]).book_id.0
                        < self.next_book_id by {
                        let i0 = if i < j as int { i } else { i + 1 };
                        assert(prev.remove(j as int)[i] == prev[i0]);
                    }
                }
                return Ok(());
            }
            j = j + 1;
        }
        proof {
            assert(!owner_matches(self.rows@, event.book_id, event.requested_user));
        }
        Err(AppError::EntityNotFound("Book not found".to_owned()))
    }
}

/// Walking to the first matching index characterizes `spec_find_row`.
proof fn lemma_find_row_at(rows: Seq<BookRow>, i: int, id: BookId)
    requires
        0 <= i < rows.len(),
        rows[i].book_id == id,
        forall|j: int| 0 <= j < i ==> #[trigger] rows[j].book_id != id,
    ensures
        spec_find_row(rows, id) == Some(rows[i]),
    decreases i,
{
    if i > 0 {
        lemma_find_row_at(rows.drop_first(), i - 1, id);
    }
}

/// A store with no row for `id` reports an empty lookup.
proof fn lemma_find_row_none(rows: Seq<BookRow>, id: BookId)
    requires
        forall|j: int| 0 <= j < rows.len() ==> #[trigger] rows[j].book_id != id,
    ensures
        spec_find_row(rows, id) is None,
    decreases rows.len(),
{
    if rows.len() > 0 {
        lemma_find_row_none(rows.drop_first(), id);
    }
}

/// Law: a requester other than the recorded owner of a book matches no
/// row of a well-formed store, so by the contracts of `update` and
/// `delete` such a write returns `EntityNotFound` and leaves every row as
/// it was.
pub proof fn lemma_nonowner_mutation_misses(rows: Seq<BookRow>, i: int, requester: UserId)
    requires
        rows_distinct_ids(rows),
        0 <= i < rows.len(),
        rows[i].owned_by != requester,
    ensures
        !owner_matches(rows, rows[i].book_id, requester),
{
    assert forall|j: int|
        0 <= j < rows.len() implies !row_authorizes(
        #[trigger] rows[j],
        rows[i].book_id,
        requester,
    ) by {
        if j != i {
            if j < i {
                assert(rows[j].book_id != rows[i].book_id);
            } else {
                assert(rows[i].book_id != rows[j].book_id);
            }
        }
    }
}

/// Law: after an owner's successful update, a lookup of the book reports
/// exactly the row with the event's descriptive fields; together with
/// `update`'s contract, an owner's edit is reflected in a subsequent
/// `find_by_id`.
pub proof fn lemma_owner_update_visible(rows: Seq<BookRow>, i: int, e: UpdateBook)
    requires
        rows_distinct_ids(rows),
        0 <= i < rows.len(),
        rows[i].book_id == e.book_id,
        rows[i].owned_by == e.requested_user,
    ensures
        owner_matches(rows, e.book_id, e.requested_user),
        spec_find_row(rows.update(i, spec_row_updated(rows[i], e)), e.book_id) == Some(
            spec_row_updated(rows[i], e),
        ),
{
    let updated = rows.update(i, spec_row_updated(rows[i], e));
    assert forall|j: int| 0 <= j < i implies #[trigger] updated[j].book_id != e.book_id by {
        assert(rows[j].book_id != rows[i].book_id);
    }
    lemma_find_row_at(updated, i, e.book_id);
}

/// Law: after an owner's successful delete, a lookup of the book is
/// empty; together with `delete`'s contract, a deleted book is gone from
/// a subsequent `find_by_id`.
pub proof fn lemma_owner_delete_invisible(rows: Seq<BookRow>, i: int, id: BookId)
    requires
        rows_distinct_ids(rows),
        0 <= i < rows.len(),
        rows[i].book_id == id,
    ensures
        spec_find_row(rows.remove(i), id) is None,
{
    let shrunk = rows.remove(i);
    assert forall|j: int| 0 <= j < shrunk.len() implies #[trigger] shrunk[j].book_id != id by {
        let j0 = if j < i { j } else { j + 1 };
        assert(shrunk[j] == rows[j0]);
        if j0 < i {
            assert(rows[j0].book_id != rows[i].book_id);
        } else {
            assert(rows[i].book_id != rows[j0].book_id);
        }
    }
    lemma_find_row_none(shrunk, id);
}

} // verus!
