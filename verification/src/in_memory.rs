//! A bucket kept in memory, behind a `parking_lot` mutex.

use vstd::prelude::*;
use crate::algorithm::{Mode, RateLimitExceededError, State, TokenBucketAlgorithm};
use crate::bucket::Storage;
use crate::clock::utc_now_nanos;

verus! {

#[verifier::external_type_specification]
#[verifier::external_body]
pub struct ExRawMutex(parking_lot::RawMutex);

#[verifier::external_type_specification]
#[verifier::external_body]
#[verifier::reject_recursive_types(R)]
#[verifier::reject_recursive_types(T)]
pub struct ExMutex<R, T: ?Sized>(parking_lot::lock_api::Mutex<R, T>);

/// The lock of a bucket while it is held: a `MutexGuard` of `parking_lot`.
/// Its type is bounded by a trait of that crate, so the guard is kept whole
/// behind this struct, and read and written through the two functions below.
#[verifier::external_body]
struct StateGuard<'a> {
    guard: parking_lot::MutexGuard<'a, State>,
}

/// The state that a mutex was made around. What the mutex holds later is
/// shared with other threads and has no name.
pub uninterp spec fn made_around(m: parking_lot::Mutex<State>) -> State;

/// `Mutex::new` of `parking_lot`: an unlocked mutex around `state`.
#[verifier::external_body]
fn mutex_new(state: State) -> (m: parking_lot::Mutex<State>)
    ensures
        made_around(m) == state,
{
    parking_lot::Mutex::new(state)
}

/// `Mutex::lock` of `parking_lot`: blocks until the lock is free and takes
/// it; the lock is given back when the guard is dropped. A thread that
/// already holds the lock would wait for ever: the library takes it in one
/// place only, and gives it back before it could take it again.
#[verifier::external_body]
fn mutex_lock<'a>(m: &'a parking_lot::Mutex<State>) -> (g: StateGuard<'a>) {
    StateGuard { guard: m.lock() }
}

/// Reads the state through the guard's `Deref`. Other threads wrote it, so
/// nothing is stated of the value.
#[verifier::external_body]
fn guard_read<'a>(g: &StateGuard<'a>) -> (s: State) {
    *g.guard
}

/// Writes the state through the guard's `DerefMut`.
#[verifier::external_body]
fn guard_write<'a>(g: &mut StateGuard<'a>, s: State) {
    *g.guard = s;
}

pub struct InMemoryStorage {
    state: parking_lot::Mutex<State>,
}

impl InMemoryStorage {
    /// The state that this storage started from.
    pub closed spec fn initial(&self) -> State {
        made_around(self.state)
    }

    /// A storage that starts from a full bucket of `rps_limit` tokens, with
    /// the tick of `rps_limit` tokens per second, last refilled at the
    /// instant that the clock gave.
    pub fn new(rps_limit: u32) -> (s: Self)
        requires
            rps_limit >= 1,
        ensures
            exists|now: i128| s.initial() == #[trigger] State::full(rps_limit, now),
    {
        let now = utc_now_nanos();
        Self { state: mutex_new(State::new(rps_limit, now)) }
    }

    /// A storage that starts from a full bucket of `rps_limit` tokens per
    /// second, or nothing for a limit of zero, which has no tick.
    pub fn try_new(rps_limit: u32) -> (r: Option<Self>)
        ensures
            r is Some <==> rps_limit >= 1,
            r matches Some(s) ==> exists|now: i128|
                s.initial() == #[trigger] State::full(rps_limit, now),
    {
        if rps_limit >= 1 {
            Some(Self::new(rps_limit))
        } else {
            None
        }
    }
}

impl Storage for InMemoryStorage {
    type Error = RateLimitExceededError;

    /// The clock and the other holders of this storage decide what the
    /// bucket holds when the lock is taken. Whatever it is, a request for
    /// all that is left and a request for no permit at all are never
    /// refused; any other request is granted or refused by what the bucket
    /// holds.
    open spec fn allows(&self, mode: Mode, permits: u32, r: Result<(), Self::Error>) -> bool {
        mode is All || permits == 0 ==> r is Ok
    }

    fn try_acquire(&self, alg: TokenBucketAlgorithm, permits: u32) -> (r: Result<
        (),
        Self::Error,
    >) {
        let mut guard = mutex_lock(&self.state);
        let mut state = guard_read(&guard);
        let r = alg.try_acquire(&mut state, permits);
        guard_write(&mut guard, state);
        r
    }
}

} // verus!
