//! The checkout store: creating a checkout, the one-way return
//! transition, and the unreturned/history queries.
//!
//! The load-bearing invariant is exclusivity: at most one Active
//! checkout exists per book, enforced by `create` as an existence check
//! atomic with the insert. A record, once Returned, is terminal; history
//! is append-only.

use vstd::prelude::*;
use crate::book::{BookCheckoutRow, Checkout};
use crate::error::AppError;
use crate::id::{BookId, CheckoutId, UserId};
use crate::user::CheckoutUser;

verus! {

/// A stored checkout record. `returned_at` absent means the checkout is
/// Active (currently held); present means Returned, terminally.
#[derive(Debug)]
pub struct CheckoutRecord {
    pub checkout_id: CheckoutId,
    pub book_id: BookId,
    pub checked_out_by: UserId,
    pub user_name: String,
    pub checked_out_at: i64,
    pub returned_at: Option<i64>,
}

impl Clone for CheckoutRecord {
    fn clone(&self) -> (r: Self)
        ensures
            r == *self,
    {
        CheckoutRecord {
            checkout_id: self.checkout_id,
            book_id: self.book_id,
            checked_out_by: self.checked_out_by,
            user_name: self.user_name.clone(),
            checked_out_at: self.checked_out_at,
            returned_at: match &self.returned_at {
                Some(t) => Some(*t),
                None => None,
            },
        }
    }
}

/// Checkout-creation event: which book, who takes it, and when
/// (milliseconds since the epoch).
pub struct CreateCheckout {
    pub book_id: BookId,
    pub checked_out_by: UserId,
    pub checked_out_at: i64,
}

impl CreateCheckout {
    pub fn new(book_id: BookId, checked_out_by: UserId, checked_out_at: i64) -> (r: Self)
        ensures
            r == (CreateCheckout { book_id, checked_out_by, checked_out_at }),
    {
        CreateCheckout { book_id, checked_out_by, checked_out_at }
    }
}

/// Return event: the (checkout, book) pair to mark Returned, who returns
/// it, and when. The pair must identify an Active record.
pub struct UpdateReturned {
    pub checkout_id: CheckoutId,
    pub book_id: BookId,
    pub returned_by: UserId,
    pub returned_at: i64,
}

impl UpdateReturned {
    pub fn new(checkout_id: CheckoutId, book_id: BookId, returned_by: UserId, returned_at: i64) -> (r: Self)
        ensures
            r == (UpdateReturned { checkout_id, book_id, returned_by, returned_at }),
    {
        UpdateReturned { checkout_id, book_id, returned_by, returned_at }
    }
}

/// The domain view of an Active record.
pub open spec fn checkout_of(rec: CheckoutRecord) -> Checkout {
    Checkout {
        checkout_id: rec.checkout_id,
        checked_out_by: CheckoutUser { user_id: rec.checked_out_by, name: rec.user_name },
        checked_out_at: rec.checked_out_at,
    }
}

/// The join row the book lookup consumes for an Active record.
pub open spec fn spec_book_checkout_row(rec: CheckoutRecord) -> BookCheckoutRow {
    BookCheckoutRow {
        checkout_id: rec.checkout_id,
        book_id: rec.book_id,
        user_id: rec.checked_out_by,
        user_name: rec.user_name,
        checked_out_at: rec.checked_out_at,
    }
}

/// True when some Active record exists for this book: the condition that
/// makes a further checkout attempt a conflict.
pub open spec fn has_active(rows: Seq<CheckoutRecord>, book_id: BookId) -> bool {
    exists|i: int|
        0 <= i < rows.len() && (#[trigger] rows[i]).book_id == book_id
            && rows[i].returned_at is None
}

/// True when an Active record carries exactly this (checkout, book)
/// pair: the success condition of a return.
pub open spec fn active_matches(
    rows: Seq<CheckoutRecord>,
    checkout_id: CheckoutId,
    book_id: BookId,
) -> bool {
    exists|i: int|
        0 <= i < rows.len() && (#[trigger] rows[i]).checkout_id == checkout_id
            && rows[i].book_id == book_id && rows[i].returned_at is None
}

/// The record as a return leaves it: only the return timestamp is set.
pub open spec fn spec_record_returned(rec: CheckoutRecord, at: i64) -> CheckoutRecord {
    CheckoutRecord {
        checkout_id: rec.checkout_id,
        book_id: rec.book_id,
        checked_out_by: rec.checked_out_by,
        user_name: rec.user_name,
        checked_out_at: rec.checked_out_at,
        returned_at: Some(at),
    }
}

/// Every Active checkout, in creation order.
pub open spec fn spec_unreturned_all(rows: Seq<CheckoutRecord>) -> Seq<Checkout>
    decreases rows.len(),
{
    if rows.len() == 0 {
        Seq::empty()
    } else {
        let rest = spec_unreturned_all(rows.drop_last());
        if rows.last().returned_at is None {
            rest.push(checkout_of(rows.last()))
        } else {
            rest
        }
    }
}

/// This user's Active checkouts, in creation order.
pub open spec fn spec_unreturned_by_user(rows: Seq<CheckoutRecord>, user_id: UserId) -> Seq<
    Checkout,
>
    decreases rows.len(),
{
    if rows.len() == 0 {
        Seq::empty()
    } else {
        let rest = spec_unreturned_by_user(rows.drop_last(), user_id);
        if rows.last().returned_at is None && rows.last().checked_out_by == user_id {
            rest.push(checkout_of(rows.last()))
        } else {
            rest
        }
    }
}

/// Every record for this book, Active and Returned alike, in creation
/// order: the one query that surfaces Returned records.
pub open spec fn spec_history_by_book(rows: Seq<CheckoutRecord>, book_id: BookId) -> Seq<
    CheckoutRecord,
>
    decreases rows.len(),
{
    if rows.len() == 0 {
        Seq::empty()
    } else {
        let rest = spec_history_by_book(rows.drop_last(), book_id);
        if rows.last().book_id == book_id {
            rest.push(rows.last())
        } else {
            rest
        }
    }
}

/// The first Active record for this book, if any. Under the exclusivity
/// invariant there is at most one.
pub open spec fn spec_find_active_by_book(rows: Seq<CheckoutRecord>, book_id: BookId) -> Option<
    CheckoutRecord,
>
    decreases rows.len(),
{
    if rows.len() == 0 {
        None
    } else if rows[0].book_id == book_id && rows[0].returned_at is None {
        Some(rows[0])
    } else {
        spec_find_active_by_book(rows.drop_first(), book_id)
    }
}

/// The in-memory checkout store. Records sit in creation order; ids come
/// from the store's own counter.
pub struct CheckoutRepositoryImpl {
    pub rows: Vec<CheckoutRecord>,
    pub next_checkout_id: u64,
}

impl CheckoutRepositoryImpl {
    /// Unique ids assigned below the counter, and the exclusivity
    /// invariant: no two Active records share a book.
    pub open spec fn wf(&self) -> bool {
        &&& forall|i: int, j: int|
            0 <= i < j < self.rows@.len() ==> (#[trigger] self.rows@[i]).checkout_id != (
            #[trigger] self.rows@[j]).checkout_id
        &&& forall|i: int|
            0 <= i < self.rows@.len() ==> (#[trigger] self.rows@[i]).checkout_id.0
                < self.next_checkout_id
        &&& forall|i: int, j: int|
            0 <= i < j < self.rows@.len() && (#[trigger] self.rows@[i]).book_id == (
            #[trigger] self.rows@[j]).book_id ==> !(self.rows@[i].returned_at is None
                && self.rows@[j].returned_at is None)
        &&& self.rows@.len() <= self.next_checkout_id
        &&& self.next_checkout_id <= i64::MAX
    }

    pub fn new() -> (r: Self)
        ensures
            r.wf(),
            r.rows@.len() == 0,
            r.next_checkout_id == 0,
    {
        CheckoutRepositoryImpl { rows: Vec::new(), next_checkout_id: 0 }
    }

    /// Creates an Active checkout, unless the book already has one: the
    /// existence check and the insert are one atomic step of this store,
    /// so of two attempts on the same book exactly one succeeds.
    pub fn create(&mut self, event: CreateCheckout, user_name: String) -> (r: Result<
        CheckoutId,
        AppError,
    >)
        requires
            old(self).wf(),
            old(self).next_checkout_id < i64::MAX,
        ensures
            final(self).wf(),
            r is Ok <==> !has_active(old(self).rows@, event.book_id),
            has_active(old(self).rows@, event.book_id) ==> {
                &&& r matches Err(AppError::ResourceConflict(_))
                &&& *final(self) == *old(self)
            },
            !has_active(old(self).rows@, event.book_id) ==> {
                &&& r == Ok::<CheckoutId, AppError>(CheckoutId(old(self).next_checkout_id))
                &&& final(self).next_checkout_id == old(self).next_checkout_id + 1
                &&& final(self).rows@ == old(self).rows@.push(
                    CheckoutRecord {
                        checkout_id: CheckoutId(old(self).next_checkout_id),
                        book_id: event.book_id,
                        checked_out_by: event.checked_out_by,
                        user_name: user_name,
                        checked_out_at: event.checked_out_at,
                        returned_at: None,
                    },
                )
            },
    {
        let n = self.rows.len();
        let mut j: usize = 0;
        while j < n
            invariant
                *self == *old(self),
                old(self).wf(),
                n == self.rows@.len(),
                j <= n,
                forall|k: int|
                    0 <= k < j ==> !((#[trigger] self.rows@[k]).book_id == event.book_id
                        && self.rows@[k].returned_at is None),
            decreases n - j,
        {
            let is_active = match &self.rows[j].returned_at {
                Some(_) => false,
                None => true,
            };
            if self.rows[j].book_id == event.book_id && is_active {
                return Err(AppError::ResourceConflict("Book is already checked out".to_owned()));
            }
            j = j + 1;
        }
        let id = CheckoutId(self.next_checkout_id);
        let rec = CheckoutRecord {
            checkout_id: id,
            book_id: event.book_id,
            checked_out_by: event.checked_out_by,
            user_name: user_name,
            checked_out_at: event.checked_out_at,
            returned_at: None,
        };
        self.rows.push(rec);
        self.next_checkout_id = self.next_checkout_id + 1;
        proof {
            let prev = old(self).rows@;
            assert forall|a: int, b: int|
                0 <= a < b < self.rows@.len() implies self.rows@[a].checkout_id
                != self.rows@[b].checkout_id by {
                if b < prev.len() {
                    assert(prev[a].checkout_id != prev[b].checkout_id);
                } else {
                    assert(prev[a].checkout_id.0 < old(self).next_checkout_id);
                }
            }
            assert forall|a: int, b: int|
                0 <= a < b < self.rows@.len() && self.rows@[a].book_id
                == self.rows@[b].book_id implies !(self.rows@[a].returned_at is None
                && self.rows@[b].returned_at is None) by {
                if b < prev.len() {
                    assert(!(prev[a].returned_at is None && prev[b].returned_at is None));
                } else {
                    assert(!(prev[a].book_id == event.book_id && prev[a].returned_at is None));
                }
            }
        }
        Ok(id)
    }

    /// Marks the Active record with exactly this (checkout, book) pair
    /// Returned. Returning twice, or naming a pairing that is not
    /// currently Active, is `EntityNotFound` and mutates nothing.
    pub fn update_returned(&mut self, event: UpdateReturned) -> (r: Result<(), AppError>)
        requires
            old(self).wf(),
        ensures
            final(self).wf(),
            final(self).next_checkout_id == old(self).next_checkout_id,
            r is Ok <==> active_matches(old(self).rows@, event.checkout_id, event.book_id),
            !active_matches(old(self).rows@, event.checkout_id, event.book_id) ==> {
                &&& r matches Err(AppError::EntityNotFound(_))
                &&& *final(self) == *old(self)
            },
            active_matches(old(self).rows@, event.checkout_id, event.book_id) ==> exists|i: int|
                {
                    &&& 0 <= i < old(self).rows@.len()
                    &&& (#[trigger] old(self).rows@[i]).checkout_id == event.checkout_id
                    &&& old(self).rows@[i].book_id == event.book_id
                    &&& old(self).rows@[i].returned_at is None
                    &&& final(self).rows@ == old(self).rows@.update(
                        i,
                        spec_record_returned(old(self).rows@[i], event.returned_at),
                    )
                },
    {
        let n = self.rows.len();
        let mut j: usize = 0;
        while j < n
            invariant
                *self == *old(self),
                old(self).wf(),
                n == self.rows@.len(),
                j <= n,
                forall|k: int|
                    0 <= k < j ==> !((#[trigger] self.rows@[k]).checkout_id == event.checkout_id
                        && self.rows@[k].book_id == event.book_id && self.rows@[k].returned_at
                        is None),
            decreases n - j,
        {
            let is_active = match &self.rows[j].returned_at {
                Some(_) => false,
                None => true,
            };
            if self.rows[j].checkout_id == event.checkout_id
                && self.rows[j].book_id == event.book_id && is_active {
                let checkout_id = self.rows[j].checkout_id;
                let book_id = self.rows[j].book_id;
                let checked_out_by = self.rows[j].checked_out_by;
                let user_name = self.rows[j].user_name.clone();
                let checked_out_at = self.rows[j].checked_out_at;
                self.rows[j] = CheckoutRecord {
                    checkout_id,
                    book_id,
                    checked_out_by,
                    user_name,
                    checked_out_at,
                    returned_at: Some(event.returned_at),
                };
                proof {
                    let prev = old(self).rows@;
                    assert(self.rows@ == prev.update(
                        j as int,
                        spec_record_returned(prev[j as int], event.returned_at),
                    ));
                    assert forall|a: int, b: int|
                        0 <= a < b < self.rows@.len() implies self.rows@[a].checkout_id
                        != self.rows@[b].checkout_id by {
                        assert(self.rows@[a].checkout_id == prev[a].checkout_id);
                        assert(self.rows@[b].checkout_id == prev[b].checkout_id);
                        assert(prev[a].checkout_id != prev[b].checkout_id);
                    }
                    assert forall|a: int, b: int|
                        0 <= a < b < self.rows@.len() && self.rows@[a].book_id
                        == self.rows@[b].book_id implies !(self.rows@[a].returned_at is None
                        && self.rows@[b].returned_at is None) by {
                        assert(self.rows@[a].book_id == prev[a].book_id);
                        assert(self.rows@[b].book_id == prev[b].book_id);
                        assert(!(prev[a].returned_at is None && prev[b].returned_at is None));
                        if a != j as int && b != j as int {
                            assert(self.rows@[a].returned_at == prev[a].returned_at);
                            assert(self.rows@[b].returned_at == prev[b].returned_at);
                        }
                    }
                }
                return Ok(());
            }
            j = j + 1;
        }
        proof {
            assert(!active_matches(self.rows@, event.checkout_id, event.book_id));
        }
        Err(AppError::EntityNotFound("No active checkout for this book".to_owned()))
    }

    /// Lists every Active checkout across all books.
    pub fn find_unreturned_all(&self) -> (r: Vec<Checkout>)
        ensures
            r@ == spec_unreturned_all(self.rows@),
    {
        let n = self.rows.len();
        let mut items: Vec<Checkout> = Vec::new();
        let mut j: usize = 0;
        while j < n
            invariant
                n == self.rows@.len(),
                j <= n,
                items@ == spec_unreturned_all(self.rows@.take(j as int)),
            decreases n - j,
        {
            proof {
                assert(self.rows@.take(j as int + 1).drop_last() =~= self.rows@.take(j as int));
                assert(self.rows@.take(j as int + 1).last() == self.rows@[j as int]);
            }
            let is_active = match &self.rows[j].returned_at {
                Some(_) => false,
                None => true,
            };
            if is_active {
                items.push(
                    Checkout {
                        checkout_id: self.rows[j].checkout_id,
                        checked_out_by: CheckoutUser {
                            user_id: self.rows[j].checked_out_by,
                            name: self.rows[j].user_name.clone(),
                        },
                        checked_out_at: self.rows[j].checked_out_at,
                    },
                );
            }
            j = j + 1;
        }
        proof {
            assert(self.rows@.take(n as int) =~= self.rows@);
        }
        items
    }

    /// Lists this user's Active checkouts.
    pub fn find_unreturned_by_user_id(&self, user_id: UserId) -> (r: Vec<Checkout>)
        ensures
            r@ == spec_unreturned_by_user(self.rows@, user_id),
    {
        let n = self.rows.len();
        let mut items: Vec<Checkout> = Vec::new();
        let mut j: usize = 0;
        while j < n
            invariant
                n == self.rows@.len(),
                j <= n,
                items@ == spec_unreturned_by_user(self.rows@.take(j as int), user_id),
            decreases n - j,
        {
            proof {
                assert(self.rows@.take(j as int + 1).drop_last() =~= self.rows@.take(j as int));
                assert(self.rows@.take(j as int + 1).last() == self.rows@[j as int]);
            }
            let is_active = match &self.rows[j].returned_at {
                Some(_) => false,
                None => true,
            };
            if is_active && self.rows[j].checked_out_by == user_id {
                items.push(
                    Checkout {
                        checkout_id: self.rows[j].checkout_id,
                        checked_out_by: CheckoutUser {
                            user_id: self.rows[j].checked_out_by,
                            name: self.rows[j].user_name.clone(),
                        },
                        checked_out_at: self.rows[j].checked_out_at,
                    },
                );
            }
            j = j + 1;
        }
        proof {
            assert(self.rows@.take(n as int) =~= self.rows@);
        }
        items
    }

    /// Lists every record for a book, Active and Returned alike, in
    /// creation order, for audit and history display.
    pub fn find_history_by_book_id(&self, book_id: BookId) -> (r: Vec<CheckoutRecord>)
        ensures
            r@ == spec_history_by_book(self.rows@, book_id),
    {
        let n = self.rows.len();
        let mut items: Vec<CheckoutRecord> = Vec::new();
        let mut j: usize = 0;
        while j < n
            invariant
                n == self.rows@.len(),
                j <= n,
                items@ == spec_history_by_book(self.rows@.take(j as int), book_id),
            decreases n - j,
        {
            proof {
                assert(self.rows@.take(j as int + 1).drop_last() =~= self.rows@.take(j as int));
                assert(self.rows@.take(j as int + 1).last() == self.rows@[j as int]);
            }
            if self.rows[j].book_id == book_id {
                items.push(self.rows[j].clone());
            }
            j = j + 1;
        }
        proof {
            assert(self.rows@.take(n as int) =~= self.rows@);
        }
        items
    }

    /// The Active record for a book, as the join row the book lookup
    /// consumes, or nothing when the book is not currently held.
    pub fn find_active_by_book_id(&self, book_id: BookId) -> (r: Option<BookCheckoutRow>)
        ensures
            match spec_find_active_by_book(self.rows@, book_id) {
                Some(rec) => r == Some(spec_book_checkout_row(rec)),
                None => r is None,
            },
    {
        let n = self.rows.len();
        let mut j: usize = 0;
        while j < n
            invariant
                n == self.rows@.len(),
                j <= n,
                forall|k: int|
                    0 <= k < j ==> !((#[trigger] self.rows@[k]).book_id == book_id
                        && self.rows@[k].returned_at is None),
            decreases n - j,
        {
            let is_active = match &self.rows[j].returned_at {
                Some(_) => false,
                None => true,
            };
            if self.rows[j].book_id == book_id && is_active {
                proof {
                    lemma_find_active_at(self.rows@, j as int, book_id);
                }
                return Some(
                    BookCheckoutRow {
                        checkout_id: self.rows[j].checkout_id,
                        book_id: self.rows[j].book_id,
                        user_id: self.rows[j].checked_out_by,
                        user_name: self.rows[j].user_name.clone(),
                        checked_out_at: self.rows[j].checked_out_at,
                    },
                );
            }
            j = j + 1;
        }
        proof {
            lemma_find_active_none(self.rows@, book_id);
        }
        None
    }
}

/// Walking to the first Active record for a book characterizes
/// `spec_find_active_by_book`.
proof fn lemma_find_active_at(rows: Seq<CheckoutRecord>, i: int, book_id: BookId)
    requires
        0 <= i < rows.len(),
        rows[i].book_id == book_id,
        rows[i].returned_at is None,
        forall|j: int|
            0 <= j < i ==> !((#[trigger] rows[j]).book_id == book_id && rows[j].returned_at
                is None),
    ensures
        spec_find_active_by_book(rows, book_id) == Some(rows[i]),
    decreases i,
{
    if i > 0 {
        lemma_find_active_at(rows.drop_first(), i - 1, book_id);
    }
}

/// A store with no Active record for a book reports an empty join.
proof fn lemma_find_active_none(rows: Seq<CheckoutRecord>, book_id: BookId)
    requires
        forall|j: int|
            0 <= j < rows.len() ==> !((#[trigger] rows[j]).book_id == book_id
                && rows[j].returned_at is None),
    ensures
        spec_find_active_by_book(rows, book_id) is None,
    decreases rows.len(),
{
    if rows.len() > 0 {
        lemma_find_active_none(rows.drop_first(), book_id);
    }
}

/// Law: a well-formed checkout store never holds two Active checkouts
/// for one book; two Active records for the same book are one record.
pub proof fn lemma_at_most_one_active(s: &CheckoutRepositoryImpl, i: int, j: int)
    requires
        s.wf(),
        0 <= i < s.rows@.len(),
        0 <= j < s.rows@.len(),
        s.rows@[i].book_id == s.rows@[j].book_id,
        s.rows@[i].returned_at is None,
        s.rows@[j].returned_at is None,
    ensures
        i == j,
{
}

/// Law: right after a checkout is created for a book, that book has an
/// Active checkout, so by `create`'s contract the second of two attempts
/// on the same book fails with a conflict while the first succeeds.
pub proof fn lemma_second_checkout_conflicts(rows: Seq<CheckoutRecord>, rec: CheckoutRecord)
    requires
        rec.returned_at is None,
    ensures
        has_active(rows.push(rec), rec.book_id),
{
    assert(rows.push(rec)[rows.len() as int] == rec);
}

/// Law: once the record carrying a checkout id is Returned, no Active
/// record matches that id any more; by `update_returned`'s contract a
/// second return of the same checkout fails with `EntityNotFound` and
/// mutates nothing.
pub proof fn lemma_returned_blocks_second_return(
    rows: Seq<CheckoutRecord>,
    i: int,
    book_id: BookId,
)
    requires
        forall|a: int, b: int|
            0 <= a < b < rows.len() ==> (#[trigger] rows[a]).checkout_id != (
            #[trigger] rows[b]).checkout_id,
        0 <= i < rows.len(),
        rows[i].returned_at is Some,
    ensures
        !active_matches(rows, rows[i].checkout_id, book_id),
{
    assert forall|j: int|
        0 <= j < rows.len() && (#[trigger] rows[j]).checkout_id == rows[i].checkout_id
            && rows[j].book_id == book_id implies !(rows[j].returned_at is None) by {
        if j < i {
            assert(rows[j].checkout_id != rows[i].checkout_id);
        } else if j > i {
            assert(rows[i].checkout_id != rows[j].checkout_id);
        }
    }
}

/// Law: a checkout created for a user appears in that user's unreturned
/// listing, as its last element; with `create`'s contract, creating a
/// checkout and immediately listing the user's unreturned checkouts
/// includes exactly the new one.
pub proof fn lemma_unreturned_gains_new_checkout(
    rows: Seq<CheckoutRecord>,
    rec: CheckoutRecord,
    user_id: UserId,
)
    requires
        rec.returned_at is None,
        rec.checked_out_by == user_id,
    ensures
        spec_unreturned_by_user(rows.push(rec), user_id) == spec_unreturned_by_user(
            rows,
            user_id,
        ).push(checkout_of(rec)),
{
    assert(rows.push(rec).drop_last() =~= rows);
    assert(rows.push(rec).last() == rec);
}

/// Law: every checkout id in a user's unreturned listing comes from a
/// stored record, so ids below the store's counter bound the listing;
/// with fresh ids assigned at the counter, a new checkout appears at
/// most once.
pub proof fn lemma_unreturned_ids_bounded(rows: Seq<CheckoutRecord>, user_id: UserId, bound: u64)
    requires
        forall|i: int| 0 <= i < rows.len() ==> (#[trigger] rows[i]).checkout_id.0 < bound,
    ensures
        forall|k: int|
            0 <= k < spec_unreturned_by_user(rows, user_id).len() ==> (
            #[trigger] spec_unreturned_by_user(rows, user_id)[k]).checkout_id.0 < bound,
    decreases rows.len(),
{
    if rows.len() > 0 {
        assert forall|i: int|
            0 <= i < rows.drop_last().len() implies (
        #[trigger] rows.drop_last()[i]).checkout_id.0 < bound by {
            assert(rows.drop_last()[i] == rows[i]);
        }
        lemma_unreturned_ids_bounded(rows.drop_last(), user_id, bound);
        let f = spec_unreturned_by_user(rows, user_id);
        let fd = spec_unreturned_by_user(rows.drop_last(), user_id);
        assert forall|k: int| 0 <= k < f.len() implies (#[trigger] f[k]).checkout_id.0 < bound by {
            if rows.last().returned_at is None && rows.last().checked_out_by == user_id {
                assert(f == fd.push(checkout_of(rows.last())));
                if k < fd.len() {
                    assert(f[k] == fd[k]);
                } else {
                    assert(f[k] == checkout_of(rows.last()));
                    assert(rows[rows.len() - 1].checkout_id.0 < bound);
                }
            } else {
                assert(f == fd);
                assert(f[k] == fd[k]);
            }
        }
    }
}

/// Law: once every record carrying a checkout id is Returned, the
/// unreturned listing of any user no longer mentions that id; with
/// `update_returned`'s contract, a returned checkout disappears from the
/// borrower's unreturned listing.
pub proof fn lemma_unreturned_excludes_returned(
    rows: Seq<CheckoutRecord>,
    user_id: UserId,
    checkout_id: CheckoutId,
)
    requires
        forall|i: int|
            0 <= i < rows.len() && (#[trigger] rows[i]).checkout_id == checkout_id
                ==> rows[i].returned_at is Some,
    ensures
        forall|k: int|
            0 <= k < spec_unreturned_by_user(rows, user_id).len() ==> (
            #[trigger] spec_unreturned_by_user(rows, user_id)[k]).checkout_id != checkout_id,
    decreases rows.len(),
{
    if rows.len() > 0 {
        assert forall|i: int|
            0 <= i < rows.drop_last().len() && (#[trigger] rows.drop_last()[i]).checkout_id
                == checkout_id implies rows.drop_last()[i].returned_at is Some by {
            assert(rows.drop_last()[i] == rows[i]);
        }
        lemma_unreturned_excludes_returned(rows.drop_last(), user_id, checkout_id);
        let f = spec_unreturned_by_user(rows, user_id);
        let fd = spec_unreturned_by_user(rows.drop_last(), user_id);
        assert forall|k: int|
            0 <= k < f.len() implies (#[trigger] f[k]).checkout_id != checkout_id by {
            if rows.last().returned_at is None && rows.last().checked_out_by == user_id {
                assert(f == fd.push(checkout_of(rows.last())));
                if k < fd.len() {
                    assert(f[k] == fd[k]);
                } else {
                    assert(f[k] == checkout_of(rows.last()));
                    assert(rows[rows.len() - 1].checkout_id != checkout_id);
                }
            } else {
                assert(f == fd);
                assert(f[k] == fd[k]);
            }
        }
    }
}

/// Law: every record of a book stays visible in that book's history,
/// Returned mark included; with the return contract, a returned checkout
/// still appears in `find_history_by_book_id`, marked Returned.
pub proof fn lemma_history_includes_record(rows: Seq<CheckoutRecord>, book_id: BookId, i: int)
    requires
        0 <= i < rows.len(),
        rows[i].book_id == book_id,
    ensures
        exists|k: int|
            0 <= k < spec_history_by_book(rows, book_id).len() && #[trigger] spec_history_by_book(
                rows,
                book_id,
            )[k] == rows[i],
    decreases rows.len(),
{
    let h = spec_history_by_book(rows, book_id);
    if i == rows.len() - 1 {
        assert(h[h.len() - 1] == rows[i]);
    } else {
        assert(rows.drop_last()[i] == rows[i]);
        lemma_history_includes_record(rows.drop_last(), book_id, i);
        let hd = spec_history_by_book(rows.drop_last(), book_id);
        let k = choose|k: int| 0 <= k < hd.len() && #[trigger] hd[k] == rows[i];
        if rows.last().book_id == book_id {
            assert(h == hd.push(rows.last()));
            assert(h[k] == rows[i]);
        } else {
            assert(h == hd);
        }
    }
}

} // verus!
