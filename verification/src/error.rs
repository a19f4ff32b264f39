//! The error taxonomy of the backend core.
//!
//! Every fallible operation of the library surfaces exactly one of these
//! variants; internal causes that must stay indistinguishable at the
//! boundary (a missing book versus a book owned by someone else) collapse
//! into a single variant by design.

use vstd::prelude::*;

verus! {

/// The discriminated outcome of a failed operation.
///
/// - `UnauthorizedError`: the credential presentation is missing or
///   malformed (no header, or no `Bearer ` prefix).
/// - `UnauthenticatedError`: the credential is well formed but does not
///   resolve to a live principal.
/// - `ForbiddenOperationError`: the caller is authenticated but lacks the
///   required role.
/// - `EntityNotFound`: the target is absent or, for ownership-scoped
///   writes, present but not owned by the requester; the two causes are
///   deliberately indistinguishable.
/// - `ResourceConflict`: a checkout-exclusivity violation.
/// - `ValidationError`: a request failed an input validation rule.
#[derive(Debug)]
pub enum AppError {
    UnauthorizedError,
    UnauthenticatedError,
    ForbiddenOperationError,
    EntityNotFound(String),
    ResourceConflict(String),
    ValidationError(String),
}

pub type AppResult<T> = Result<T, AppError>;

impl AppError {
    /// A short machine-readable label for the variant, usable where the
    /// presentation layer needs a stable discriminator.
    pub fn label(&self) -> (r: &'static str)
        ensures
            r@ == self.spec_label(),
    {
        match self {
            AppError::UnauthorizedError => "unauthorized",
            AppError::UnauthenticatedError => "unauthenticated",
            AppError::ForbiddenOperationError => "forbidden",
            AppError::EntityNotFound(_) => "entity_not_found",
            AppError::ResourceConflict(_) => "conflict",
            AppError::ValidationError(_) => "validation",
        }
    }

    pub open spec fn spec_label(&self) -> Seq<char> {
        match self {
            AppError::UnauthorizedError => "unauthorized"@,
            AppError::UnauthenticatedError => "unauthenticated"@,
            AppError::ForbiddenOperationError => "forbidden"@,
            AppError::EntityNotFound(_) => "entity_not_found"@,
            AppError::ResourceConflict(_) => "conflict"@,
            AppError::ValidationError(_) => "validation"@,
        }
    }
}

} // verus!
