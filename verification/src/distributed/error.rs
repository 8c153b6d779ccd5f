//! What can go wrong between peers.

use vstd::prelude::*;
use crate::algorithm::RateLimitExceededError;
use crate::distributed::message::ContentKind;
use crate::distributed::peer::PeerAddr;

verus! {

#[derive(Debug)]
#[allow(inconsistent_fields)]
pub enum DistributedStorageError {
    /// The local bucket refused the request.
    RateLimitExceededError(RateLimitExceededError),
    /// The datagram is not the encoding of any message.
    Malformed,
    /// The datagram carries checksum `act`, its contents give `exp`.
    ChecksumMismatch { act: u32, exp: u32 },
    /// The datagram came from an address outside the peer set.
    PeerNotWhitelisted { peer: PeerAddr },
    /// The strategy expects content of kind `exp` and got `act`.
    MessageContentMismatch { exp: ContentKind, act: ContentKind },
    /// A peer's name resolved to no address.
    PeerAddrNotResolved,
}

impl From<RateLimitExceededError> for DistributedStorageError {
    fn from(e: RateLimitExceededError) -> (r: DistributedStorageError) {
        DistributedStorageError::RateLimitExceededError(e)
    }
}

impl vstd::std_specs::convert::FromSpecImpl<RateLimitExceededError> for DistributedStorageError {
    open spec fn obeys_from_spec() -> bool {
        true
    }

    open spec fn from_spec(e: RateLimitExceededError) -> DistributedStorageError {
        DistributedStorageError::RateLimitExceededError(e)
    }
}

} // verus!
