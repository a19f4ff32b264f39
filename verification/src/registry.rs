//! The application registry: the stores a request handler works
//! against, gathered in one place and passed to every handler.

use vstd::prelude::*;
use crate::auth::TokenStore;
use crate::book_repo::BookRepositoryImpl;
use crate::checkout_repo::CheckoutRepositoryImpl;
use crate::user_repo::UserRepositoryImpl;

verus! {

pub struct AppRegistry {
    pub book_repository: BookRepositoryImpl,
    pub checkout_repository: CheckoutRepositoryImpl,
    pub user_repository: UserRepositoryImpl,
    pub auth_repository: TokenStore,
}

impl AppRegistry {
    /// All four stores are well formed.
    pub open spec fn wf(&self) -> bool {
        &&& self.book_repository.wf()
        &&& self.checkout_repository.wf()
        &&& self.user_repository.wf()
        &&& self.auth_repository.wf()
    }

    /// A registry over empty stores.
    pub fn new() -> (r: Self)
        ensures
            r.wf(),
            r.book_repository.rows@.len() == 0,
            r.book_repository.next_book_id == 0,
            r.checkout_repository.rows@.len() == 0,
            r.checkout_repository.next_checkout_id == 0,
            r.user_repository.rows@.len() == 0,
            r.user_repository.next_user_id == 0,
            r.auth_repository.bindings@.len() == 0,
    {
        AppRegistry {
            book_repository: BookRepositoryImpl::new(),
            checkout_repository: CheckoutRepositoryImpl::new(),
            user_repository: UserRepositoryImpl::new(),
            auth_repository: TokenStore::new(),
        }
    }
}

} // verus!
