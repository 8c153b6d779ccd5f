//! The decisions of a distributed storage: what a request hands to the
//! background task, and one turn of that task, from an event to what to do
//! next.

use vstd::prelude::*;
use crate::algorithm::{RateLimitExceededError, TokenBucketAlgorithm};
use crate::bucket::Storage;
use crate::distributed::codec::{decode_datagram, decoded};
use crate::distributed::error::DistributedStorageError;
use crate::distributed::peer::PeerAddr;
use crate::distributed::strategy::{Outbound, Strategy};
use crate::in_memory::InMemoryStorage;

verus! {

/// What the background task was woken by.
#[derive(Debug)]
pub enum Event {
    /// The local bucket was debited by this many permits.
    Acquired(u32),
    /// The handle of the storage is gone and all its notices were taken.
    Closed,
    /// A datagram came in.
    Received { payload: Vec<u8>, source: PeerAddr },
    /// The socket reported an error in place of a datagram.
    ReceiveFailed,
}

/// What the background task does before it waits for the next event.
#[derive(Debug)]
pub enum Action {
    /// Send one copy of the message to each of the peers, then wait.
    Send(Outbound),
    /// Wait.
    Wait,
    /// Leave the loop.
    Stop,
}

/// The outcome of one turn: the action, and the failure to report if the
/// turn met one. A failure never ends the loop.
#[derive(Debug)]
pub struct Step {
    pub action: Action,
    pub failure: Option<DistributedStorageError>,
}

/// The failure, if any, of taking in the payload `b` of a datagram from
/// `source`: that of decoding it or, for a message, that of the strategy.
pub open spec fn intake_failure<S: Strategy>(strategy: &S, b: Seq<u8>, source: PeerAddr) -> Option<
    DistributedStorageError,
> {
    match decoded(b) {
        Ok(None) => None,
        Ok(Some(m)) => match strategy.receives(m, source) {
            Ok(_) => None,
            Err(e) => Some(e),
        },
        Err(e) => Some(e),
    }
}

/// Whether `step` is a turn that `event` calls for. Only the closing of the
/// queue stops the loop; only a debit makes it send, and then what the
/// strategy announces; a datagram is decoded and handed to the strategy.
pub open spec fn follows<S: Strategy>(strategy: &S, event: Event, step: Step) -> bool {
    match event {
        Event::Closed => step.action is Stop && step.failure is None,
        Event::ReceiveFailed => step.action is Wait && step.failure is None,
        Event::Acquired(permits) => match step.action {
            Action::Send(out) => step.failure is None && strategy.announces(permits, Ok(out)),
            Action::Wait => step.failure matches Some(e) && strategy.announces(permits, Err(e)),
            Action::Stop => false,
        },
        Event::Received { payload, source } => step.action is Wait && step.failure
            == intake_failure(strategy, payload@, source),
    }
}

/// What the caller's side of a distributed storage returns when the local
/// bucket answered a request for `permits` with `local`: for a grant the
/// permits of which the background task is to be told, which are those that
/// were asked for; for a refusal the bucket's error, and nobody is told.
pub open spec fn handed_off(permits: u32, local: Result<(), RateLimitExceededError>) -> Result<
    u32,
    DistributedStorageError,
> {
    match local {
        Ok(_) => Ok(permits),
        Err(e) => Err(DistributedStorageError::RateLimitExceededError(e)),
    }
}

/// The caller's side of a distributed storage: debits the local bucket,
/// which alone decides, and on success says of how many permits the
/// background task is to be told. A refused request tells nobody.
pub fn acquire(storage: &InMemoryStorage, alg: TokenBucketAlgorithm, permits: u32) -> (r: Result<
    u32,
    DistributedStorageError,
>)
    ensures
        exists|local: Result<(), RateLimitExceededError>|
            storage.allows(alg.mode(), permits, local) && r == #[trigger] handed_off(
                permits,
                local,
            ),
        alg.mode() is All || permits == 0 ==> r == Ok::<u32, DistributedStorageError>(permits),
        r matches Ok(told) ==> told == permits,
        r matches Err(e) ==> e is RateLimitExceededError,
{
    let local = storage.try_acquire(alg, permits);
    let ghost answered = local;
    let r = match local {
        Ok(_) => Ok(permits),
        Err(e) => Err(DistributedStorageError::RateLimitExceededError(e)),
    };
    assert(r == handed_off(permits, answered));
    r
}

/// Takes one turn of the background task.
pub fn process<S: Strategy>(strategy: &S, storage: &InMemoryStorage, event: Event) -> (step: Step)
    ensures
        follows(strategy, event, step),
{
    match event {
        Event::Closed => Step { action: Action::Stop, failure: None },
        Event::ReceiveFailed => Step { action: Action::Wait, failure: None },
        Event::Acquired(permits) => match strategy.on_acquire(permits) {
            Ok(out) => Step { action: Action::Send(out), failure: None },
            Err(e) => Step { action: Action::Wait, failure: Some(e) },
        },
        Event::Received { payload, source } => {
            let failure = match decode_datagram(payload.as_slice()) {
                Ok(None) => None,
                Ok(Some(msg)) => match strategy.on_msg_recv(msg, source, storage) {
                    Ok(_) => None,
                    Err(e) => Some(e),
                },
                Err(e) => Some(e),
            };
            Step { action: Action::Wait, failure }
        },
    }
}

} // verus!
