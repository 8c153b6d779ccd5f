//! The storage abstraction and the rate limiter in front of it.

use vstd::prelude::*;
use crate::algorithm::{Mode, RateLimitExceededError, TokenBucketAlgorithm};

verus! {

/// Trait that provides function for tokens acquiring.
///
/// An implementation loads its state, runs the algorithm it is handed on it
/// and saves the updated state, all in one critical section.
pub trait Storage {
    type Error: From<RateLimitExceededError>;

    /// What this storage promises of a call in `mode` for `permits` that
    /// returned `r`: nothing, unless the storage says more.
    open spec fn allows(&self, mode: Mode, permits: u32, r: Result<(), Self::Error>) -> bool {
        true
    }

    fn try_acquire(&self, alg: TokenBucketAlgorithm, permits: u32) -> (r: Result<(), Self::Error>)
        ensures
            self.allows(alg.mode(), permits, r),
    ;
}

/// Rate limiter that implements token bucket algorithm.
pub struct TokenBucket<S> {
    storage: S,
}

impl<S> TokenBucket<S> where S: Storage {
    pub closed spec fn storage(&self) -> S {
        self.storage
    }

    /// Creates new token bucket rate limiter with provided storage.
    pub fn new(storage: S) -> (tb: Self)
        ensures
            tb.storage() == storage,
    {
        Self { storage }
    }

    /// Tries to acquire N tokens: all of them or, with an error, none.
    pub fn try_acquire(&self, permits: u32) -> (r: Result<(), S::Error>)
        ensures
            self.storage().allows(Mode::N, permits, r),
    {
        self.storage.try_acquire(TokenBucketAlgorithm::new(Mode::N), permits)
    }

    /// Tries to acquire 1 token.
    pub fn try_acquire_one(&self) -> (r: Result<(), S::Error>)
        ensures
            self.storage().allows(Mode::N, 1, r),
    {
        self.try_acquire(1)
    }

    /// Tries to acquire N or all available tokens if `available < N`.
    pub fn try_acquire_n_or_all(&self, permits: u32) -> (r: Result<(), S::Error>)
        ensures
            self.storage().allows(Mode::All, permits, r),
    {
        self.storage.try_acquire(TokenBucketAlgorithm::new(Mode::All), permits)
    }
}

} // verus!
