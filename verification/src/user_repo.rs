//! The user store: registration, lookup, listing, deletion, role change
//! and the self-service password change.

use vstd::prelude::*;
use crate::error::AppError;
use crate::id::UserId;
use crate::role::Role;
use crate::user::{CreateUser, DeleteUser, UpdateUserPassword, UpdateUserRole, User};

verus! {

/// A stored user beside the credential the password change checks.
pub struct UserRecord {
    pub user: User,
    pub password: String,
}

/// The first record carrying this user id, if any.
pub open spec fn spec_find_record(rows: Seq<UserRecord>, id: UserId) -> Option<UserRecord>
    decreases rows.len(),
{
    if rows.len() == 0 {
        None
    } else if rows[0].user.id == id {
        Some(rows[0])
    } else {
        spec_find_record(rows.drop_first(), id)
    }
}

/// The first stored user carrying this id, if any.
pub open spec fn spec_find_user(rows: Seq<UserRecord>, id: UserId) -> Option<User> {
    match spec_find_record(rows, id) {
        Some(rec) => Some(rec.user),
        None => None,
    }
}

/// The first record whose email reads `email`, if any: the record a
/// login attempt is held against.
pub open spec fn spec_find_by_email(rows: Seq<UserRecord>, email: Seq<char>) -> Option<UserRecord>
    decreases rows.len(),
{
    if rows.len() == 0 {
        None
    } else if rows[0].user.email@ == email {
        Some(rows[0])
    } else {
        spec_find_by_email(rows.drop_first(), email)
    }
}

/// True when some record carries this user id.
pub open spec fn user_present(rows: Seq<UserRecord>, id: UserId) -> bool {
    exists|i: int| 0 <= i < rows.len() && (#[trigger] rows[i]).user.id == id
}

/// The record as a role change leaves it.
pub open spec fn spec_record_with_role(rec: UserRecord, role: Role) -> UserRecord {
    UserRecord {
        user: User { id: rec.user.id, name: rec.user.name, email: rec.user.email, role },
        password: rec.password,
    }
}

/// The record as a password change leaves it.
pub open spec fn spec_record_with_password(rec: UserRecord, password: String) -> UserRecord {
    UserRecord { user: rec.user, password }
}

/// The in-memory user store.
pub struct UserRepositoryImpl {
    pub rows: Vec<UserRecord>,
    pub next_user_id: u64,
}

impl UserRepositoryImpl {
    /// Unique ids assigned below the counter.
    pub open spec fn wf(&self) -> bool {
        &&& forall|i: int, j: int|
            0 <= i < j < self.rows@.len() ==> (#[trigger] self.rows@[i]).user.id != (
            #[trigger] self.rows@[j]).user.id
        &&& forall|i: int|
            0 <= i < self.rows@.len() ==> (#[trigger] self.rows@[i]).user.id.0 < self.next_user_id
        &&& self.rows@.len() <= self.next_user_id
        &&& self.next_user_id <= i64::MAX
    }

    pub fn new() -> (r: Self)
        ensures
            r.wf(),
            r.rows@.len() == 0,
            r.next_user_id == 0,
    {
        UserRepositoryImpl { rows: Vec::new(), next_user_id: 0 }
    }

    /// Registers a user with the default role. Returns the stored user.
    pub fn create(&mut self, event: CreateUser) -> (r: User)
        requires
            old(self).wf(),
            old(self).next_user_id < i64::MAX,
        ensures
            final(self).wf(),
            r == (User {
                id: UserId(old(self).next_user_id),
                name: event.name,
                email: event.email,
                role: Role::User,
            }),
            final(self).next_user_id == old(self).next_user_id + 1,
            final(self).rows@ == old(self).rows@.push(
                UserRecord { user: r, password: event.password },
            ),
    {
        let user = User {
            id: UserId(self.next_user_id),
            name: event.name,
            email: event.email,
            role: Role::User,
        };
        let copy = user.clone();
        self.rows.push(UserRecord { user, password: event.password });
        self.next_user_id = self.next_user_id + 1;
        proof {
            let prev = old(self).rows@;
            assert forall|i: int, j: int|
                0 <= i < j < self.rows@.len() implies self.rows@[i].user.id
                != self.rows@[j].user.id by {
                if j < prev.len() {
                    assert(prev[i].user.id != prev[j].user.id);
                } else {
                    assert(prev[i].user.id.0 < old(self).next_user_id);
                }
            }
        }
        copy
    }

    /// Loads the live principal for an id; an empty result means the
    /// user no longer exists.
    pub fn find_current_user(&self, id: UserId) -> (r: Option<User>)
        ensures
            r == spec_find_user(self.rows@, id),
    {
        let n = self.rows.len();
        let mut j: usize = 0;
        while j < n
            invariant
                n == self.rows@.len(),
                j <= n,
                forall|k: int| 0 <= k < j ==> (#[trigger] self.rows@[k]).user.id != id,
            decreases n - j,
        {
            if self.rows[j].user.id == id {
                proof {
                    lemma_find_record_at(self.rows@, j as int, id);
                }
                return Some(self.rows[j].user.clone());
            }
            j = j + 1;
        }
        proof {
            lemma_find_record_none(self.rows@, id);
        }
        None
    }

    /// Finds the record a login attempt names by email, password not
    /// yet examined.
    pub fn find_by_email(&self, email: &String) -> (r: Option<UserRecord>)
        ensures
            r == spec_find_by_email(self.rows@, email@),
    {
        let n = self.rows.len();
        let mut j: usize = 0;
        while j < n
            invariant
                n == self.rows@.len(),
                j <= n,
                forall|k: int| 0 <= k < j ==> (#[trigger] self.rows@[k]).user.email@ != email@,
            decreases n - j,
        {
            if self.rows[j].user.email == *email {
                proof {
                    lemma_find_by_email_at(self.rows@, j as int, email@);
                }
                let user = self.rows[j].user.clone();
                let password = self.rows[j].password.clone();
                return Some(UserRecord { user, password });
            }
            j = j + 1;
        }
        proof {
            lemma_find_by_email_none(self.rows@, email@);
        }
        None
    }

    /// Lists every registered user, in registration order.
    pub fn find_all(&self) -> (r: Vec<User>)
        ensures
            r@.len() == self.rows@.len(),
            forall|k: int| 0 <= k < r@.len() ==> r@[k] == (#[trigger] self.rows@[k]).user,
    {
        let n = self.rows.len();
        let mut items: Vec<User> = Vec::new();
        let mut j: usize = 0;
        while j < n
            invariant
                n == self.rows@.len(),
                j <= n,
                items@.len() == j,
                forall|k: int| 0 <= k < j ==> items@[k] == (#[trigger] self.rows@[k]).user,
            decreases n - j,
        {
            items.push(self.rows[j].user.clone());
            j = j + 1;
        }
        items
    }

    /// Deletes the user carrying this id; absent ids are
    /// `EntityNotFound`.
    pub fn delete(&mut self, event: DeleteUser) -> (r: Result<(), AppError>)
        requires
            old(self).wf(),
        ensures
            final(self).wf(),
            final(self).next_user_id == old(self).next_user_id,
            r is Ok <==> user_present(old(self).rows@, event.user_id),
            !user_present(old(self).rows@, event.user_id) ==> {
                &&& r matches Err(AppError::EntityNotFound(_))
                &&& *final(self) == *old(self)
            },
            user_present(old(self).rows@, event.user_id) ==> exists|i: int|
                {
                    &&& 0 <= i < old(self).rows@.len()
                    &&& (#[trigger] old(self).rows@[i]).user.id == event.user_id
                    &&& final(self).rows@ == old(self).rows@.remove(i)
                },
    {
        let n = self.rows.len();
        let mut j: usize = 0;
        while j < n
            invariant
                *self == *old(self),
                old(self).wf(),
                n == self.rows@.len(),
                j <= n,
                forall|k: int| 0 <= k < j ==> (#[trigger] self.rows@[k]).user.id != event.user_id,
            decreases n - j,
        {
            if self.rows[j].user.id == event.user_id {
                let _ = self.rows.remove(j);
                proof {
                    let prev = old(self).rows@;
                    prev.remove_ensures(j as int);
                    assert(self.rows@ == prev.remove(j as int));
                    assert forall|a: int, b: int|
                        0 <= a < b < self.rows@.len() implies self.rows@[a].user.id
                        != self.rows@[b].user.id by {
                        let a0 = if a < j as int { a } else { a + 1 };
                        let b0 = if b < j as int { b } else { b + 1 };
                        assert(prev.remove(j as int)[a] == prev[a0]);
                        assert(prev.remove(j as int)[b] == prev[b0]);
                        assert(prev[a0].user.id != prev[b0].user.id);
                    }
                    assert forall|i: int|
                        0 <= i < self.rows@.len() implies (#[trigger] self.rows@[i]).user.id.0
                        < self.next_user_id by {
                        let i0 = if i < j as int { i } else { i + 1 };
                        assert(prev.remove(j as int)[i] == prev[i0]);
                    }
                }
                return Ok(());
            }
            j = j + 1;
        }
        proof {
            assert(!user_present(self.rows@, event.user_id));
        }
        Err(AppError::EntityNotFound("User not found".to_owned()))
    }

    /// Changes the role of the user carrying this id; absent ids are
    /// `EntityNotFound`.
    pub fn update_role(&mut self, event: UpdateUserRole) -> (r: Result<(), AppError>)
        requires
            old(self).wf(),
        ensures
            final(self).wf(),
            final(self).next_user_id == old(self).next_user_id,
            r is Ok <==> user_present(old(self).rows@, event.user_id),
            !user_present(old(self).rows@, event.user_id) ==> {
                &&& r matches Err(AppError::EntityNotFound(_))
                &&& *final(self) == *old(self)
            },
            user_present(old(self).rows@, event.user_id) ==> exists|i: int|
                {
                    &&& 0 <= i < old(self).rows@.len()
                    &&& (#[trigger] old(self).rows@[i]).user.id == event.user_id
                    &&& final(self).rows@ == old(self).rows@.update(
                        i,
                        spec_record_with_role(old(self).rows@[i], event.role),
                    )
                },
    {
        let n = self.rows.len();
        let mut j: usize = 0;
        while j < n
            invariant
                *self == *old(self),
                old(self).wf(),
                n == self.rows@.len(),
                j <= n,
                forall|k: int| 0 <= k < j ==> (#[trigger] self.rows@[k]).user.id != event.user_id,
            decreases n - j,
        {
            if self.rows[j].user.id == event.user_id {
                let user = User {
                    id: self.rows[j].user.id,
                    name: self.rows[j].user.name.clone(),
                    email: self.rows[j].user.email.clone(),
                    role: event.role,
                };
                let password = self.rows[j].password.clone();
                self.rows[j] = UserRecord { user, password };
                proof {
                    let prev = old(self).rows@;
                    assert(self.rows@ == prev.update(
                        j as int,
                        spec_record_with_role(prev[j as int], event.role),
                    ));
                    assert forall|a: int, b: int|
                        0 <= a < b < self.rows@.len() implies self.rows@[a].user.id
                        != self.rows@[b].user.id by {
                        assert(self.rows@[a].user.id == prev[a].user.id);
                        assert(self.rows@[b].user.id == prev[b].user.id);
                        assert(prev[a].user.id != prev[b].user.id);
                    }
                }
                return Ok(());
            }
            j = j + 1;
        }
        proof {
            assert(!user_present(self.rows@, event.user_id));
        }
        Err(AppError::EntityNotFound("User not found".to_owned()))
    }

    /// Changes the caller's own password: `EntityNotFound` when the id
    /// is gone, `UnauthenticatedError` when the supplied current
    /// password does not match, and in either failure nothing changes.
    pub fn update_password(&mut self, event: UpdateUserPassword) -> (r: Result<(), AppError>)
        requires
            old(self).wf(),
        ensures
            final(self).wf(),
            final(self).next_user_id == old(self).next_user_id,
            match spec_find_record(old(self).rows@, event.user_id) {
                None => {
                    &&& r matches Err(AppError::EntityNotFound(_))
                    &&& *final(self) == *old(self)
                },
                Some(rec) => {
                    if rec.password@ == event.current_password@ {
                        &&& r is Ok
                        &&& exists|i: int|
                            {
                                &&& 0 <= i < old(self).rows@.len()
                                &&& #[trigger] old(self).rows@[i] == rec
                                &&& final(self).rows@ == old(self).rows@.update(
                                    i,
                                    spec_record_with_password(rec, event.new_password),
                                )
                            }
                    } else {
                        &&& r matches Err(AppError::UnauthenticatedError)
                        &&& *final(self) == *old(self)
                    }
                },
            },
    {
        let n = self.rows.len();
        let mut j: usize = 0;
        while j < n
            invariant
                *self == *old(self),
                old(self).wf(),
                n == self.rows@.len(),
                j <= n,
                forall|k: int| 0 <= k < j ==> (#[trigger] self.rows@[k]).user.id != event.user_id,
            decreases n - j,
        {
            if self.rows[j].user.id == event.user_id {
                proof {
                    lemma_find_record_at(self.rows@, j as int, event.user_id);
                }
                if self.rows[j].password == event.current_password {
                    let user = self.rows[j].user.clone();
                    self.rows[j] = UserRecord { user, password: event.new_password };
                    proof {
                        let prev = old(self).rows@;
                        assert(self.rows@ == prev.update(
                            j as int,
                            spec_record_with_password(prev[j as int], event.new_password),
                        ));
                        assert forall|a: int, b: int|
                            0 <= a < b < self.rows@.len() implies self.rows@[a].user.id
                            != self.rows@[b].user.id by {
                            assert(self.rows@[a].user.id == prev[a].user.id);
                            assert(self.rows@[b].user.id == prev[b].user.id);
                            assert(prev[a].user.id != prev[b].user.id);
                        }
                    }
                    return Ok(());
                } else {
                    return Err(AppError::UnauthenticatedError);
                }
            }
            j = j + 1;
        }
        proof {
            lemma_find_record_none(self.rows@, event.user_id);
        }
        Err(AppError::EntityNotFound("User not found".to_owned()))
    }
}

/// Walking to the first matching email characterizes
/// `spec_find_by_email`.
proof fn lemma_find_by_email_at(rows: Seq<UserRecord>, i: int, email: Seq<char>)
    requires
        0 <= i < rows.len(),
        rows[i].user.email@ == email,
        forall|j: int| 0 <= j < i ==> (#[trigger] rows[j]).user.email@ != email,
    ensures
        spec_find_by_email(rows, email) == Some(rows[i]),
    decreases i,
{
    if i > 0 {
        lemma_find_by_email_at(rows.drop_first(), i - 1, email);
    }
}

/// A store with no record for an email reports an empty lookup.
proof fn lemma_find_by_email_none(rows: Seq<UserRecord>, email: Seq<char>)
    requires
        forall|j: int| 0 <= j < rows.len() ==> (#[trigger] rows[j]).user.email@ != email,
    ensures
        spec_find_by_email(rows, email) is None,
    decreases rows.len(),
{
    if rows.len() > 0 {
        lemma_find_by_email_none(rows.drop_first(), email);
    }
}

/// Walking to the first matching index characterizes `spec_find_record`.
proof fn lemma_find_record_at(rows: Seq<UserRecord>, i: int, id: UserId)
    requires
        0 <= i < rows.len(),
        rows[i].user.id == id,
        forall|j: int| 0 <= j < i ==> (#[trigger] rows[j]).user.id != id,
    ensures
        spec_find_record(rows, id) == Some(rows[i]),
    decreases i,
{
    if i > 0 {
        lemma_find_record_at(rows.drop_first(), i - 1, id);
    }
}

/// A store with no record for `id` reports an empty lookup.
proof fn lemma_find_record_none(rows: Seq<UserRecord>, id: UserId)
    requires
        forall|j: int| 0 <= j < rows.len() ==> (#[trigger] rows[j]).user.id != id,
    ensures
        spec_find_record(rows, id) is None,
    decreases rows.len(),
{
    if rows.len() > 0 {
        lemma_find_record_none(rows.drop_first(), id);
    }
}

} // verus!
