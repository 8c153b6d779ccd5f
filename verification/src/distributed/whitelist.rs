//! Trust by address: a fixed set of peers, each told of every debit.

use vstd::prelude::*;
use crate::algorithm::{min_int, nanos_between, Mode, State, TokenBucketAlgorithm};
use crate::bucket::Storage;
use crate::clock::{utc_now_nanos, utc_now_timestamp};
use crate::distributed::error::DistributedStorageError;
use crate::distributed::message::{
    version_text, Content, ContentKind, ContentView, Message, MessageView, WhitelistContent,
};
use crate::distributed::peer::PeerAddr;
use crate::distributed::strategy::{Outbound, Strategy};
use crate::in_memory::InMemoryStorage;

verus! {

/// The age in nanoseconds beyond which a message is stale.
pub const MAX_TS_DIFF: u64 = 5_000_000_000;

/// Trust by address. The peer set is fixed when the strategy is made. It is
/// kept as a list in which no address occurs twice, and seen as the set of
/// its members.
pub struct WhitelistStrategy {
    peers: Vec<PeerAddr>,
}

/// The first address of each peer in `resolved`.
pub open spec fn first_addrs(resolved: Seq<Vec<PeerAddr>>) -> Set<PeerAddr> {
    Set::new(
        |a: PeerAddr| exists|i: int| 0 <= i < resolved.len() && #[trigger] resolved[i]@.len() > 0
            && resolved[i]@[0] == a,
    )
}

/// Whether a message sent at `sent` is neither from the future nor stale
/// at `now`. A moment that denotes no instant is never fresh.
pub open spec fn fresh(sent: Option<i128>, now: i128) -> bool {
    sent matches Some(at) && now - MAX_TS_DIFF <= at <= now
}

/// What a strategy with the peer set `peers` makes of `msg` from `source`
/// at `now`: an error for a stranger or for content of another kind, nothing
/// to do for a message that is not fresh, else the permits to debit.
pub open spec fn verdict_of(peers: Set<PeerAddr>, msg: MessageView, source: PeerAddr, now: i128)
    -> Result<Option<u32>, DistributedStorageError> {
    if !peers.contains(source) {
        Err(DistributedStorageError::PeerNotWhitelisted { peer: source })
    } else {
        match msg.content {
            ContentView::Whitelist(c) => if fresh(c.sent_ts.instant(), now) {
                Ok(Some(c.permits))
            } else {
                Ok(None)
            },
            ContentView::Unknown { .. } => Err(
                DistributedStorageError::MessageContentMismatch {
                    exp: ContentKind::Whitelist,
                    act: ContentKind::Unknown,
                },
            ),
        }
    }
}

impl View for WhitelistStrategy {
    type V = Set<PeerAddr>;

    /// The peer set.
    closed spec fn view(&self) -> Set<PeerAddr> {
        self.peers@.to_set()
    }
}

impl WhitelistStrategy {
    /// No peer is held twice.
    #[verifier::type_invariant]
    spec fn wf(&self) -> bool {
        self.peers@.no_duplicates()
    }

    /// The strategy whose peers are the first addresses of `resolved`, which
    /// holds for each configured peer the addresses that its name resolved
    /// to. A peer without an address is an error.
    pub fn new(resolved: Vec<Vec<PeerAddr>>) -> (r: Result<Self, DistributedStorageError>)
        ensures
            r is Ok <==> forall|i: int| 0 <= i < resolved@.len() ==> #[trigger] resolved@[i]@.len() > 0,
            r matches Ok(s) ==> s@ == first_addrs(resolved@),
            r matches Err(e) ==> e == DistributedStorageError::PeerAddrNotResolved,
    {
        let mut peers: Vec<PeerAddr> = Vec::new();
        let mut i: usize = 0;
        while i < resolved.len()
            invariant
                0 <= i <= resolved@.len(),
                peers@.no_duplicates(),
                forall|j: int| 0 <= j < i ==> #[trigger] resolved@[j]@.len() > 0,
                peers@.to_set() == first_addrs(resolved@.subrange(0, i as int)),
            decreases resolved@.len() - i,
        {
            if resolved[i].len() == 0 {
                return Err(DistributedStorageError::PeerAddrNotResolved);
            }
            let first = resolved[i][0];
            let ghost before = peers@;
            if !contains_addr(&peers, first) {
                peers.push(first);
            }
            proof {
                let done = resolved@.subrange(0, i as int);
                let next = resolved@.subrange(0, i as int + 1);
                assert(next[i as int] == resolved@[i as int]);
                assert forall|a: PeerAddr| peers@.to_set().contains(a) <==> first_addrs(
                    next,
                ).contains(a) by {
                    if peers@.to_set().contains(a) {
                        if before.contains(a) {
                            assert(before.to_set().contains(a));
                            let j = choose|j: int|
                                0 <= j < done.len() && #[trigger] done[j]@.len() > 0 && done[j]@[0]
                                    == a;
                            assert(next[j] == done[j]);
                        } else {
                            let k = choose|k: int| 0 <= k < peers@.len() && peers@[k] == a;
                            assert(a == first);
                        }
                    }
                    if first_addrs(next).contains(a) {
                        let j = choose|j: int|
                            0 <= j < next.len() && #[trigger] next[j]@.len() > 0 && next[j]@[0]
                                == a;
                        if j < i {
                            assert(done[j] == next[j]);
                            assert(first_addrs(done).contains(a));
                            assert(before.to_set().contains(a));
                            let k = choose|k: int| 0 <= k < before.len() && before[k] == a;
                            assert(peers@[k] == a);
                        } else {
                            assert(a == first);
                            if before.contains(first) {
                                let k = choose|k: int| 0 <= k < before.len() && before[k] == a;
                                assert(peers@[k] == a);
                            } else {
                                assert(peers@[peers@.len() - 1] == a);
                            }
                        }
                    }
                }
                assert(peers@.to_set() =~= first_addrs(next));
            }
            i += 1;
        }
        proof {
            assert(resolved@.subrange(0, i as int) =~= resolved@);
        }
        Ok(Self { peers })
    }

    /// Whether `addr` is a peer: the same address and the same port.
    pub fn contains(&self, addr: PeerAddr) -> (r: bool)
        ensures
            r == self@.contains(addr),
    {
        contains_addr(&self.peers, addr)
    }

    /// The peers, each once.
    pub fn peers(&self) -> (r: Vec<PeerAddr>)
        ensures
            r@.no_duplicates(),
            r@.to_set() == self@,
    {
        proof {
            use_type_invariant(self);
        }
        let mut out: Vec<PeerAddr> = Vec::new();
        let mut i: usize = 0;
        while i < self.peers.len()
            invariant
                0 <= i <= self.peers@.len(),
                out@ == self.peers@.subrange(0, i as int),
            decreases self.peers@.len() - i,
        {
            out.push(self.peers[i]);
            assert(out@ =~= self.peers@.subrange(0, i as int + 1));
            i += 1;
        }
        assert(out@ =~= self.peers@);
        out
    }

    /// What to make of `msg` from `source` at `now`.
    pub fn verdict(&self, msg: &Message, source: PeerAddr, now: i128) -> (r: Result<
        Option<u32>,
        DistributedStorageError,
    >)
        ensures
            r == verdict_of(self@, msg@, source, now),
    {
        if !self.contains(source) {
            return Err(DistributedStorageError::PeerNotWhitelisted { peer: source });
        }
        match &msg.content {
            Content::Whitelist(content) => {
                match content.sent_ts.unix_nanos() {
                    None => Ok(None),
                    Some(sent) => {
                        if sent > now {
                            Ok(None)
                        } else if nanos_between(now, sent) > MAX_TS_DIFF as u128 {
                            Ok(None)
                        } else {
                            Ok(Some(content.permits))
                        }
                    },
                }
            },
            x => Err(
                DistributedStorageError::MessageContentMismatch {
                    exp: ContentKind::Whitelist,
                    act: x.kind(),
                },
            ),
        }
    }
}

/// A message from outside the peer set is refused whatever it holds. From
/// a peer, a message stamped after `now` or more than five seconds before
/// it is dropped, and a fresh one debits the bucket as a request in mode
/// `All` does: by the smaller of its permits and what the refilled bucket
/// holds.
pub proof fn lemma_whitelist_filter(
    peers: Set<PeerAddr>,
    msg: MessageView,
    source: PeerAddr,
    now: i128,
    bucket: State,
)
    ensures
        !peers.contains(source) ==> verdict_of(peers, msg, source, now) == Err::<Option<u32>, _>(
            DistributedStorageError::PeerNotWhitelisted { peer: source },
        ),
        peers.contains(source) ==> match msg.content {
            ContentView::Whitelist(c) => match c.sent_ts.instant() {
                Some(sent) => {
                    &&& sent > now ==> verdict_of(peers, msg, source, now) == Ok::<
                        _,
                        DistributedStorageError,
                    >(None::<u32>)
                    &&& sent < now - MAX_TS_DIFF ==> verdict_of(peers, msg, source, now) == Ok::<
                        _,
                        DistributedStorageError,
                    >(None::<u32>)
                    &&& now - MAX_TS_DIFF <= sent <= now ==> {
                        &&& verdict_of(peers, msg, source, now) == Ok::<_, DistributedStorageError>(
                            Some(c.permits),
                        )
                        &&& bucket.acquired(Mode::All, c.permits, now).available_tokens
                            == bucket.refilled(now).available_tokens - min_int(
                            c.permits as int,
                            bucket.refilled(now).available_tokens as int,
                        )
                    }
                },
                None => verdict_of(peers, msg, source, now) == Ok::<_, DistributedStorageError>(
                    None::<u32>,
                ),
            },
            ContentView::Unknown { .. } => verdict_of(peers, msg, source, now) is Err,
        },
{
}

/// Whether `addr` occurs in `peers`.
fn contains_addr(peers: &Vec<PeerAddr>, addr: PeerAddr) -> (r: bool)
    ensures
        r == peers@.contains(addr),
{
    let mut i: usize = 0;
    while i < peers.len()
        invariant
            0 <= i <= peers@.len(),
            forall|j: int| 0 <= j < i ==> peers@[j] != addr,
        decreases peers@.len() - i,
    {
        if peers[i] == addr {
            return true;
        }
        i += 1;
    }
    false
}

impl Strategy for WhitelistStrategy {
    /// Every peer gets one copy of a well-formed message of this build,
    /// stamped with a moment in UTC, that carries `permits` and the checksum
    /// that goes with it.
    open spec fn announces(&self, permits: u32, r: Result<Outbound, DistributedStorageError>)
        -> bool {
        &&& r matches Ok(out)
        &&& out.msg@.content matches ContentView::Whitelist(c)
        &&& c.permits == permits
        &&& c.sent_ts.offset_hours == 0 && c.sent_ts.offset_minutes == 0 && c.sent_ts.offset_seconds
            == 0
        &&& out.msg@.version == version_text()
        &&& out.msg@.checksum == out.msg@.checksum_due()
        &&& out.msg@.content.wf()
        &&& out.peers@.no_duplicates()
        &&& out.peers@.to_set() == self@
    }

    /// A stranger and content of another kind are errors. A message of a
    /// peer is accepted, whether it is fresh and debited or not and dropped.
    open spec fn receives(&self, msg: MessageView, source: PeerAddr) -> Result<
        (),
        DistributedStorageError,
    > {
        if !self@.contains(source) {
            Err(DistributedStorageError::PeerNotWhitelisted { peer: source })
        } else {
            match msg.content {
                ContentView::Whitelist(_) => Ok(()),
                ContentView::Unknown { .. } => Err(
                    DistributedStorageError::MessageContentMismatch {
                        exp: ContentKind::Whitelist,
                        act: ContentKind::Unknown,
                    },
                ),
            }
        }
    }

    fn on_acquire(&self, permits: u32) -> (r: Result<Outbound, DistributedStorageError>) {
        let msg = Message::new(
            Content::Whitelist(WhitelistContent { sent_ts: utc_now_timestamp(), permits }),
        );
        Ok(Outbound { msg, peers: self.peers() })
    }

    fn on_msg_recv(&self, msg: Message, source: PeerAddr, storage: &InMemoryStorage) -> (r: Result<
        (),
        DistributedStorageError,
    >) {
        let now = utc_now_nanos();
        match self.verdict(&msg, source, now) {
            Err(e) => Err(e),
            Ok(None) => Ok(()),
            Ok(Some(permits)) => {
                match storage.try_acquire(TokenBucketAlgorithm::new(Mode::All), permits) {
                    Ok(_) => Ok(()),
                    Err(e) => Err(DistributedStorageError::RateLimitExceededError(e)),
                }
            },
        }
    }
}

} // verus!
