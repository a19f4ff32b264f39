//! The authorization dimension: a closed two-variant role tag.

use vstd::prelude::*;
use vstd::std_specs::convert::FromSpecImpl;

verus! {

/// The sole authorization dimension of a principal. A closed enumeration,
/// so the authorization gate stays exhaustive.
#[derive(Clone, Copy, Debug, PartialEq, Eq, Structural)]
pub enum Role {
    Admin,
    User,
}

/// The presentation-layer spelling of a [`Role`].
#[derive(Clone, Copy, Debug, PartialEq, Eq, Structural)]
pub enum RoleName {
    Admin,
    User,
}

impl From<Role> for RoleName {
    fn from(role: Role) -> (r: RoleName) {
        match role {
            Role::Admin => RoleName::Admin,
            Role::User => RoleName::User,
        }
    }
}

impl FromSpecImpl<Role> for RoleName {
    open spec fn obeys_from_spec() -> bool {
        true
    }

    open spec fn from_spec(role: Role) -> RoleName {
        match role {
            Role::Admin => RoleName::Admin,
            Role::User => RoleName::User,
        }
    }
}

impl From<RoleName> for Role {
    fn from(role: RoleName) -> (r: Role) {
        match role {
            RoleName::Admin => Role::Admin,
            RoleName::User => Role::User,
        }
    }
}

impl FromSpecImpl<RoleName> for Role {
    open spec fn obeys_from_spec() -> bool {
        true
    }

    open spec fn from_spec(role: RoleName) -> Role {
        match role {
            RoleName::Admin => Role::Admin,
            RoleName::User => Role::User,
        }
    }
}

} // verus!
