//! Credentials and identity resolution.
//!
//! An access token is an opaque string bound to exactly one user at a
//! time; the token store is the single source of truth for the binding.
//! The identity resolver turns the raw `Authorization` header value into
//! an `AuthorizedUser`, or fails: `UnauthorizedError` when the
//! credential presentation is missing or malformed, `UnauthenticatedError`
//! when a well-formed credential does not resolve to a live principal.

use vstd::prelude::*;
use vstd::string::StrSliceExecFns;
use crate::error::AppError;
use crate::id::UserId;
use crate::role::Role;
use crate::user::User;
use crate::user_repo::{UserRepositoryImpl, spec_find_user};

verus! {

/// An opaque bearer credential. Never embeds user data itself.
#[derive(Debug)]
pub struct AccessToken(pub String);

impl Clone for AccessToken {
    fn clone(&self) -> (r: Self)
        ensures
            r == *self,
    {
        AccessToken(self.0.clone())
    }
}

/// Login event: the user a freshly generated token is to be bound to.
pub struct CreateToken {
    pub id: UserId,
    pub access_token: String,
}

impl CreateToken {
    /// Draws a fresh opaque token for the user. The token is 32
    /// lowercase hexadecimal characters.
    pub fn new(id: UserId) -> (r: Self)
        ensures
            r.id == id,
            r.access_token@.len() == 32,
    {
        let access_token = generate_token_string();
        CreateToken { id, access_token }
    }
}

/// Relies on uuid: `Uuid::new_v4` drawn through the `Simple` formatter
/// yields exactly 32 lowercase hexadecimal digits. The value is random,
/// so nothing is stated beyond its shape.
#[verifier::external_body]
fn generate_token_string() -> (r: String)
    ensures
        r@.len() == 32,
        forall|i: int|
            0 <= i < r@.len() ==> ('0' <= #[trigger] r@[i] <= '9' || 'a' <= r@[i] <= 'f'),
{
    uuid::Uuid::new_v4().simple().to_string()
}

/// One token-to-user binding held by the token store.
pub struct TokenBinding {
    pub token: AccessToken,
    pub user_id: UserId,
}

/// The user bound to the first binding whose token reads `token`, if
/// any.
pub open spec fn spec_lookup(bindings: Seq<TokenBinding>, token: Seq<char>) -> Option<UserId>
    decreases bindings.len(),
{
    if bindings.len() == 0 {
        None
    } else if bindings[0].token.0@ == token {
        Some(bindings[0].user_id)
    } else {
        spec_lookup(bindings.drop_first(), token)
    }
}

/// The token store: maps opaque tokens to user ids. Supplies and revokes
/// bindings; a token is bound to at most one user at a time.
pub struct TokenStore {
    pub bindings: Vec<TokenBinding>,
}

impl TokenStore {
    /// No two bindings read the same token.
    pub open spec fn wf(&self) -> bool {
        forall|i: int, j: int|
            0 <= i < j < self.bindings@.len() ==> (#[trigger] self.bindings@[i]).token.0@ != (
            #[trigger] self.bindings@[j]).token.0@
    }

    pub fn new() -> (r: Self)
        ensures
            r.wf(),
            r.bindings@.len() == 0,
    {
        TokenStore { bindings: Vec::new() }
    }

    /// Looks a token up; `None` means the credential identifies nobody.
    pub fn lookup(&self, token: &AccessToken) -> (r: Option<UserId>)
        ensures
            r == spec_lookup(self.bindings@, token.0@),
    {
        let n = self.bindings.len();
        let mut j: usize = 0;
        while j < n
            invariant
                n == self.bindings@.len(),
                j <= n,
                forall|k: int| 0 <= k < j ==> (#[trigger] self.bindings@[k]).token.0@ != token.0@,
            decreases n - j,
        {
            if self.bindings[j].token.0 == token.0 {
                proof {
                    lemma_lookup_at(self.bindings@, j as int, token.0@);
                }
                return Some(self.bindings[j].user_id);
            }
            j = j + 1;
        }
        proof {
            lemma_lookup_none(self.bindings@, token.0@);
        }
        None
    }

    /// Binds a token to a user, replacing any previous binding of the
    /// same token. Every other token's binding is untouched.
    pub fn bind(&mut self, token: AccessToken, user_id: UserId)
        requires
            old(self).wf(),
        ensures
            final(self).wf(),
            spec_lookup(final(self).bindings@, token.0@) == Some(user_id),
            forall|t: Seq<char>|
                t != token.0@ ==> #[trigger] spec_lookup(final(self).bindings@, t) == spec_lookup(
                    old(self).bindings@,
                    t,
                ),
    {
        let n = self.bindings.len();
        let mut j: usize = 0;
        while j < n
            invariant
                *self == *old(self),
                old(self).wf(),
                n == self.bindings@.len(),
                j <= n,
                forall|k: int| 0 <= k < j ==> (#[trigger] self.bindings@[k]).token.0@ != token.0@,
            decreases n - j,
        {
            if self.bindings[j].token.0 == token.0 {
                let ghost prev = self.bindings@;
                let ghost tview = token.0@;
                let b2 = TokenBinding { token, user_id };
                self.bindings[j] = b2;
                proof {
                    lemma_lookup_update(prev, j as int, self.bindings@[j as int], tview);
                    assert forall|t: Seq<char>|
                        t != tview implies #[trigger] spec_lookup(self.bindings@, t)
                        == spec_lookup(prev, t) by {
                        lemma_lookup_update(prev, j as int, self.bindings@[j as int], t);
                    }
                    assert forall|a: int, b: int|
                        0 <= a < b < self.bindings@.len() implies self.bindings@[a].token.0@
                        != self.bindings@[b].token.0@ by {
                        assert(self.bindings@[a].token.0@ == prev[a].token.0@);
                        assert(self.bindings@[b].token.0@ == prev[b].token.0@);
                        assert(prev[a].token.0@ != prev[b].token.0@);
                    }
                }
                return ;
            }
            j = j + 1;
        }
        let ghost prev = self.bindings@;
        let ghost tview = token.0@;
        self.bindings.push(TokenBinding { token, user_id });
        proof {
            lemma_lookup_push(prev, self.bindings@[prev.len() as int], tview);
            assert(spec_lookup(self.bindings@, tview) == Some(user_id));
            assert forall|t: Seq<char>|
                t != tview implies #[trigger] spec_lookup(self.bindings@, t) == spec_lookup(
                prev,
                t,
            ) by {
                lemma_lookup_push(prev, self.bindings@[prev.len() as int], t);
            }
            assert forall|a: int, b: int|
                0 <= a < b < self.bindings@.len() implies self.bindings@[a].token.0@
                != self.bindings@[b].token.0@ by {
                if b < prev.len() {
                    assert(prev[a].token.0@ != prev[b].token.0@);
                } else {
                    assert(self.bindings@[a].token.0@ == prev[a].token.0@);
                }
            }
        }
    }

    /// Revokes a token: afterwards it identifies nobody, and every other
    /// token's binding is untouched.
    pub fn revoke(&mut self, token: &AccessToken)
        requires
            old(self).wf(),
        ensures
            final(self).wf(),
            spec_lookup(final(self).bindings@, token.0@) is None,
            forall|t: Seq<char>|
                t != token.0@ ==> #[trigger] spec_lookup(final(self).bindings@, t) == spec_lookup(
                    old(self).bindings@,
                    t,
                ),
    {
        let n = self.bindings.len();
        let mut j: usize = 0;
        while j < n
            invariant
                *self == *old(self),
                old(self).wf(),
                n == self.bindings@.len(),
                j <= n,
                forall|k: int| 0 <= k < j ==> (#[trigger] self.bindings@[k]).token.0@ != token.0@,
            decreases n - j,
        {
            if self.bindings[j].token.0 == token.0 {
                let ghost prev = self.bindings@;
                let ghost tview = token.0@;
                let _ = self.bindings.remove(j);
                proof {
                    prev.remove_ensures(j as int);
                    assert(self.bindings@ == prev.remove(j as int));
                    assert forall|a: int, b: int|
                        0 <= a < b < self.bindings@.len() implies self.bindings@[a].token.0@
                        != self.bindings@[b].token.0@ by {
                        let a0 = if a < j as int { a } else { a + 1 };
                        let b0 = if b < j as int { b } else { b + 1 };
                        assert(prev.remove(j as int)[a] == prev[a0]);
                        assert(prev.remove(j as int)[b] == prev[b0]);
                        assert(prev[a0].token.0@ != prev[b0].token.0@);
                    }
                    assert forall|k: int|
                        0 <= k < self.bindings@.len() implies (
                    #[trigger] self.bindings@[k]).token.0@ != tview by {
                        let k0 = if k < j as int { k } else { k + 1 };
                        assert(prev.remove(j as int)[k] == prev[k0]);
                        if k0 != j as int {
                            if k0 < j as int {
                                assert(prev[k0].token.0@ != prev[j as int].token.0@);
                            } else {
                                assert(prev[j as int].token.0@ != prev[k0].token.0@);
                            }
                        }
                    }
                    lemma_lookup_none(self.bindings@, tview);
                    assert forall|t: Seq<char>|
                        t != tview implies #[trigger] spec_lookup(self.bindings@, t)
                        == spec_lookup(prev, t) by {
                        lemma_lookup_remove_other(prev, j as int, t);
                    }
                }
                return ;
            }
            j = j + 1;
        }
        proof {
            lemma_lookup_none(self.bindings@, token.0@);
        }
    }
}

/// Walking to the first matching binding characterizes `spec_lookup`.
proof fn lemma_lookup_at(bindings: Seq<TokenBinding>, i: int, token: Seq<char>)
    requires
        0 <= i < bindings.len(),
        bindings[i].token.0@ == token,
        forall|j: int| 0 <= j < i ==> (#[trigger] bindings[j]).token.0@ != token,
    ensures
        spec_lookup(bindings, token) == Some(bindings[i].user_id),
    decreases i,
{
    if i > 0 {
        lemma_lookup_at(bindings.drop_first(), i - 1, token);
    }
}

/// A store with no binding for a token reports an empty lookup.
proof fn lemma_lookup_none(bindings: Seq<TokenBinding>, token: Seq<char>)
    requires
        forall|j: int| 0 <= j < bindings.len() ==> (#[trigger] bindings[j]).token.0@ != token,
    ensures
        spec_lookup(bindings, token) is None,
    decreases bindings.len(),
{
    if bindings.len() > 0 {
        lemma_lookup_none(bindings.drop_first(), token);
    }
}

/// Replacing a binding in place, token text kept, changes no other
/// token's lookup; the replaced token's lookup follows the new binding
/// when the replaced position was the first match.
proof fn lemma_lookup_update(bindings: Seq<TokenBinding>, j: int, b2: TokenBinding, t: Seq<char>)
    requires
        0 <= j < bindings.len(),
        b2.token.0@ == bindings[j].token.0@,
    ensures
        t != bindings[j].token.0@ ==> spec_lookup(bindings.update(j, b2), t) == spec_lookup(
            bindings,
            t,
        ),
        (t == bindings[j].token.0@ && (forall|k: int|
            0 <= k < j ==> (#[trigger] bindings[k]).token.0@ != t)) ==> spec_lookup(
            bindings.update(j, b2),
            t,
        ) == Some(b2.user_id),
    decreases bindings.len(),
{
    let new = bindings.update(j, b2);
    if j == 0 {
        assert(new[0] == b2);
        if t != bindings[0].token.0@ {
            assert(new.drop_first() =~= bindings.drop_first());
        }
    } else {
        assert(new[0] == bindings[0]);
        if bindings[0].token.0@ != t {
            assert(new.drop_first() =~= bindings.drop_first().update(j - 1, b2));
            lemma_lookup_update(bindings.drop_first(), j - 1, b2, t);
            if t == bindings[j].token.0@ && (forall|k: int|
                0 <= k < j ==> (#[trigger] bindings[k]).token.0@ != t) {
                assert forall|k: int|
                    0 <= k < j - 1 implies (#[trigger] bindings.drop_first()[k]).token.0@
                    != t by {
                    assert(bindings.drop_first()[k] == bindings[k + 1]);
                }
            }
        }
    }
}

/// Appending a binding changes no other token's lookup; the appended
/// token's lookup follows the new binding when no earlier binding
/// matches it.
proof fn lemma_lookup_push(bindings: Seq<TokenBinding>, b: TokenBinding, t: Seq<char>)
    ensures
        t != b.token.0@ ==> spec_lookup(bindings.push(b), t) == spec_lookup(bindings, t),
        (t == b.token.0@ && (forall|k: int|
            0 <= k < bindings.len() ==> (#[trigger] bindings[k]).token.0@ != t)) ==> spec_lookup(
            bindings.push(b),
            t,
        ) == Some(b.user_id),
    decreases bindings.len(),
{
    let new = bindings.push(b);
    if bindings.len() == 0 {
        assert(new[0] == b);
        if t != b.token.0@ {
            assert(new.drop_first() =~= Seq::<TokenBinding>::empty());
        }
    } else {
        assert(new[0] == bindings[0]);
        if bindings[0].token.0@ != t {
            assert(new.drop_first() =~= bindings.drop_first().push(b));
            lemma_lookup_push(bindings.drop_first(), b, t);
            if t == b.token.0@ && (forall|k: int|
                0 <= k < bindings.len() ==> (#[trigger] bindings[k]).token.0@ != t) {
                assert forall|k: int|
                    0 <= k < bindings.drop_first().len() implies (
                #[trigger] bindings.drop_first()[k]).token.0@ != t by {
                    assert(bindings.drop_first()[k] == bindings[k + 1]);
                }
            }
        }
    }
}

/// Removing a binding changes no other token's lookup.
proof fn lemma_lookup_remove_other(bindings: Seq<TokenBinding>, j: int, t: Seq<char>)
    requires
        0 <= j < bindings.len(),
        t != bindings[j].token.0@,
    ensures
        spec_lookup(bindings.remove(j), t) == spec_lookup(bindings, t),
    decreases bindings.len(),
{
    let new = bindings.remove(j);
    bindings.remove_ensures(j);
    if j == 0 {
        assert(new =~= bindings.drop_first());
    } else {
        assert(new[0] == bindings[0]);
        if bindings[0].token.0@ != t {
            assert(new.drop_first() =~= bindings.drop_first().remove(j - 1));
            assert(bindings.drop_first()[j - 1] == bindings[j]);
            lemma_lookup_remove_other(bindings.drop_first(), j - 1, t);
        }
    }
}

/// The request-scoped principal: the resolved token beside the loaded
/// user. Lives only for one request; never persisted.
pub struct AuthorizedUser {
    pub access_token: AccessToken,
    pub user: User,
}

impl AuthorizedUser {
    pub fn id(&self) -> (r: UserId)
        ensures
            r == self.user.id,
    {
        self.user.id
    }

    /// The authorization gate: true exactly for the admin role. Call
    /// sites of admin-only mutations check this before the write.
    pub fn is_admin(&self) -> (r: bool)
        ensures
            r == (self.user.role == Role::Admin),
    {
        match self.user.role {
            Role::Admin => true,
            Role::User => false,
        }
    }
}

/// True when the header value starts with the literal `Bearer ` scheme
/// prefix.
pub open spec fn bearer_prefixed(s: Seq<char>) -> bool {
    &&& s.len() >= 7
    &&& s[0] == 'B'
    &&& s[1] == 'e'
    &&& s[2] == 'a'
    &&& s[3] == 'r'
    &&& s[4] == 'e'
    &&& s[5] == 'r'
    &&& s[6] == ' '
}

/// The token text behind the `Bearer ` prefix.
pub open spec fn token_of(s: Seq<char>) -> Seq<char> {
    s.subrange(7, s.len() as int)
}

/// Resolves the raw `Authorization` header value of a request into an
/// authenticated principal, or fails.
///
/// A missing or undecodable header (`None`) and a value without the
/// `Bearer ` prefix are `UnauthorizedError`. A well-formed token that the
/// token store does not bind is `UnauthenticatedError`; so is a binding
/// to a user that no longer exists, so a stale credential never resolves
/// to a ghost principal.
pub fn resolve_identity(
    header: Option<&str>,
    tokens: &TokenStore,
    users: &UserRepositoryImpl,
) -> (r: Result<AuthorizedUser, AppError>)
    ensures
        match header {
            None => r matches Err(AppError::UnauthorizedError),
            Some(h) => {
                if !bearer_prefixed(h@) {
                    r matches Err(AppError::UnauthorizedError)
                } else {
                    match spec_lookup(tokens.bindings@, token_of(h@)) {
                        None => r matches Err(AppError::UnauthenticatedError),
                        Some(uid) => match spec_find_user(users.rows@, uid) {
                            None => r matches Err(AppError::UnauthenticatedError),
                            Some(user) => r matches Ok(a) && a.user == user
                                && a.access_token.0@ == token_of(h@),
                        },
                    }
                }
            },
        },
{
    let h = match header {
        Some(h) => h,
        None => {
            return Err(AppError::UnauthorizedError);
        },
    };
    let len = h.unicode_len();
    if len < 7 {
        return Err(AppError::UnauthorizedError);
    }
    if !(h.get_char(0) == 'B' && h.get_char(1) == 'e' && h.get_char(2) == 'a' && h.get_char(3)
        == 'r' && h.get_char(4) == 'e' && h.get_char(5) == 'r' && h.get_char(6) == ' ') {
        return Err(AppError::UnauthorizedError);
    }
    let token_str = h.substring_char(7, len);
    let access_token = AccessToken(token_str.to_owned());
    match tokens.lookup(&access_token) {
        None => Err(AppError::UnauthenticatedError),
        Some(uid) => match users.find_current_user(uid) {
            None => Err(AppError::UnauthenticatedError),
            Some(user) => Ok(AuthorizedUser { access_token, user }),
        },
    }
}

} // verus!
