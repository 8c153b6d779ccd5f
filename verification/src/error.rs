//! The error of a storage that can fail for other reasons than the limit.

use vstd::prelude::*;
use crate::algorithm::RateLimitExceededError;

verus! {

#[derive(Debug)]
pub enum Error {
    /// The bucket holds fewer tokens than were asked for.
    RateLimitExceeded,
    /// The storage failed; the text says how.
    Other(String),
}

impl From<RateLimitExceededError> for Error {
    fn from(e: RateLimitExceededError) -> (r: Error) {
        Error::RateLimitExceeded
    }
}

impl vstd::std_specs::convert::FromSpecImpl<RateLimitExceededError> for Error {
    open spec fn obeys_from_spec() -> bool {
        true
    }

    open spec fn from_spec(e: RateLimitExceededError) -> Error {
        Error::RateLimitExceeded
    }
}

impl Error {
    /// The text of this error.
    pub fn message(&self) -> (s: String)
        ensures
            self is RateLimitExceeded ==> s@ == "rate limit exceeded"@,
            self matches Error::Other(text) ==> s@ == text@,
    {
        match self {
            Error::RateLimitExceeded => "rate limit exceeded".to_string(),
            Error::Other(text) => text.clone(),
        }
    }
}

} // verus!
