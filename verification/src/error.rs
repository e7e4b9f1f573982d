//! The closed set of failures that every custody operation reports.

use vstd::prelude::*;

verus! {

/// A failure of a custody, pause or admin operation.
///
/// Each variant has a stable numeric code, given by [`CommonError::code`].
#[derive(Clone, Copy, Debug, PartialEq, Eq, Structural)]
pub enum CommonError {
    NotInitialized,
    AlreadyInitialized,
    Unauthorized,
    InvalidAmount,
    InsufficientBalance,
    Paused,
    NotFound,
}

impl CommonError {
    /// The numeric code of this error, as a mathematical integer.
    pub open spec fn spec_code(self) -> int {
        match self {
            CommonError::NotInitialized => 100,
            CommonError::AlreadyInitialized => 101,
            CommonError::Unauthorized => 102,
            CommonError::InvalidAmount => 103,
            CommonError::InsufficientBalance => 104,
            CommonError::Paused => 105,
            CommonError::NotFound => 106,
        }
    }

    /// The stable numeric code under which this error is visible to callers.
    pub fn code(&self) -> (c: u32)
        ensures
            c == self.spec_code(),
    {
        match self {
            CommonError::NotInitialized => 100,
            CommonError::AlreadyInitialized => 101,
            CommonError::Unauthorized => 102,
            CommonError::InvalidAmount => 103,
            CommonError::InsufficientBalance => 104,
            CommonError::Paused => 105,
            CommonError::NotFound => 106,
        }
    }
}

/// Every code lies in the range kept for the shared errors, and no two
/// errors share a code.
pub proof fn lemma_codes_are_stable(a: CommonError, b: CommonError)
    ensures
        100 <= a.spec_code() <= 199,
        a.spec_code() == b.spec_code() ==> a == b,
{
}

} // verus!
