//! The user entity, its read-side snapshots, and the events that mutate it.

use vstd::prelude::*;
use crate::id::UserId;
use crate::role::Role;

verus! {

/// A registered user: the principal that owns books and checks them out.
#[derive(Debug)]
pub struct User {
    pub id: UserId,
    pub name: String,
    pub email: String,
    pub role: Role,
}

impl Clone for User {
    fn clone(&self) -> (r: Self)
        ensures
            r == *self,
    {
        User {
            id: self.id,
            name: self.name.clone(),
            email: self.email.clone(),
            role: self.role,
        }
    }
}

/// The owner reference carried by a book: id plus a name snapshot taken
/// when the book was registered.
#[derive(Debug)]
pub struct BookOwner {
    pub user_id: UserId,
    pub name: String,
}

impl Clone for BookOwner {
    fn clone(&self) -> (r: Self)
        ensures
            r == *self,
    {
        BookOwner { user_id: self.user_id, name: self.name.clone() }
    }
}

/// The borrower reference carried by a checkout: id plus a name snapshot
/// taken when the checkout was created.
#[derive(Debug)]
pub struct CheckoutUser {
    pub user_id: UserId,
    pub name: String,
}

impl Clone for CheckoutUser {
    fn clone(&self) -> (r: Self)
        ensures
            r == *self,
    {
        CheckoutUser { user_id: self.user_id, name: self.name.clone() }
    }
}

/// Registration event: the fields of the user to create. The store
/// assigns the id and the initial role.
pub struct CreateUser {
    pub name: String,
    pub email: String,
    pub password: String,
}

/// Deletion event for a user; admin-gated at the call site.
pub struct DeleteUser {
    pub user_id: UserId,
}

/// Self-service password change: succeeds only when `current_password`
/// matches the stored one.
pub struct UpdateUserPassword {
    pub user_id: UserId,
    pub current_password: String,
    pub new_password: String,
}

/// Role change event; admin-gated at the call site.
pub struct UpdateUserRole {
    pub user_id: UserId,
    pub role: Role,
}

} // verus!
