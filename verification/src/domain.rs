//! Errors and small vocabularies shared by the services.

use vstd::prelude::*;

use crate::db::DbError;

verus! {

/// What a service call reports when it does not succeed.
pub enum DomainError {
    /// The input breaks a rule of the workbench.
    Validation(String),
    /// The entity asked for does not exist (or was deleted).
    NotFound(String),
    /// Storage or decoding failed.
    Internal(String),
}

/// The text an error carries.
pub open spec fn error_text(e: DomainError) -> Seq<char> {
    match e {
        DomainError::Validation(m) => m@,
        DomainError::NotFound(m) => m@,
        DomainError::Internal(m) => m@,
    }
}

/// The text an error carries, as shown to the user.
pub fn error_message(e: &DomainError) -> (r: String)
    ensures
        r@ == error_text(*e),
{
    match e {
        DomainError::Validation(m) => m.clone(),
        DomainError::NotFound(m) => m.clone(),
        DomainError::Internal(m) => m.clone(),
    }
}

pub fn internal(e: DbError) -> (r: DomainError)
    ensures
        r matches DomainError::Internal(m) && m@ == e.message@,
{
    DomainError::Internal(e.message)
}

/// A validation error with the given message.
pub fn validation(message: &str) -> (r: DomainError)
    ensures
        r matches DomainError::Validation(m) && m@ == message@,
{
    DomainError::Validation(message.to_string())
}

/// A not-found error with the given message.
pub fn not_found(message: &str) -> (r: DomainError)
    ensures
        r matches DomainError::NotFound(m) && m@ == message@,
{
    DomainError::NotFound(message.to_string())
}

/// An internal error with the given message.
pub fn internal_msg(message: &str) -> (r: DomainError)
    ensures
        r matches DomainError::Internal(m) && m@ == message@,
{
    DomainError::Internal(message.to_string())
}

/// Whether `a` and `b` are the same text.
pub fn str_eq(a: &str, b: &str) -> (r: bool)
    ensures
        r == (a@ == b@),
{
    let x = crate::chars::chars_of(a);
    let y = crate::chars::chars_of(b);
    if x.len() != y.len() {
        return false;
    }
    let mut i: usize = 0;
    while i < x.len()
        invariant
            x@ == a@,
            y@ == b@,
            x@.len() == y@.len(),
            i <= x@.len(),
            forall|j: int| 0 <= j < i ==> x@[j] == y@[j],
        decreases x@.len() - i,
    {
        if x[i] != y[i] {
            return false;
        }
        i = i + 1;
    }
    proof {
        assert(x@ =~= y@);
    }
    true
}

} // verus!
