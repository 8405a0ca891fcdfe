//! The body of an error reply.
use vstd::prelude::*;

verus! {

/// What a caller is told when an operation fails: one message.
pub struct ApiError {
    pub error: String,
}

impl ApiError {
    pub fn new(error: String) -> (r: Self)
        ensures
            r.error == error,
    {
        Self { error }
    }
}

} // verus!
