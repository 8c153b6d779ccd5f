//! How an instance tells its peers of a debit and takes in what they tell.

use vstd::prelude::*;
use crate::distributed::error::DistributedStorageError;
use crate::distributed::message::{Message, MessageView};
use crate::distributed::peer::PeerAddr;
use crate::distributed::private::Sealed;
use crate::in_memory::InMemoryStorage;

verus! {

/// One message and the peers that each get a copy of it.
#[derive(Debug)]
pub struct Outbound {
    pub msg: Message,
    pub peers: Vec<PeerAddr>,
}

/// The dissemination policy of an instance. The set of strategies is closed:
/// only the types that this library marks as `Sealed` implement it.
pub trait Strategy: Sealed {
    /// What this strategy promises of `on_acquire(permits)` having returned
    /// `r`.
    spec fn announces(&self, permits: u32, r: Result<Outbound, DistributedStorageError>) -> bool;

    /// What `on_msg_recv` returns for `msg` from `source`.
    spec fn receives(&self, msg: MessageView, source: PeerAddr) -> Result<
        (),
        DistributedStorageError,
    >;

    /// Called right after a local debit of `permits`: says what to send to
    /// whom.
    fn on_acquire(&self, permits: u32) -> (r: Result<Outbound, DistributedStorageError>)
        ensures
            self.announces(permits, r),
    ;

    /// Called for each message that was decoded from a datagram of `source`:
    /// folds it into the local bucket, or refuses it.
    fn on_msg_recv(&self, msg: Message, source: PeerAddr, storage: &InMemoryStorage) -> (r: Result<
        (),
        DistributedStorageError,
    >)
        ensures
            r == self.receives(msg@, source),
    ;
}

} // verus!
