use vstd::prelude::*;

verus! {

/// An error raised by the domain layer itself: either a value failed
/// its construction-time validation, or an operation was refused by a
/// domain rule (such as editing a book whose status is applied).
#[derive(Debug)]
pub enum DomainError {
    InvalidFormat(String),
    DomainRuleViolation(String),
}

impl DomainError {
    /// The human-readable message carried by the error.
    pub fn message(self) -> (r: String)
        ensures
            self matches DomainError::InvalidFormat(m) ==> r@ == m@,
            self matches DomainError::DomainRuleViolation(m) ==> r@ == m@,
    {
        match self {
            DomainError::InvalidFormat(m) => m,
            DomainError::DomainRuleViolation(m) => m,
        }
    }
}

} // verus!
