//! Socket addresses as plain values.

use vstd::prelude::*;

verus! {

/// The address and port of a peer: what a resolved socket address holds.
/// Two addresses are the same peer only if every part is equal.
#[derive(Debug, Clone, Copy, PartialEq, Eq, Structural, Hash)]
#[allow(inconsistent_fields)]
pub enum PeerAddr {
    V4 { ip: u32, port: u16 },
    V6 { ip: u128, port: u16, flowinfo: u32, scope_id: u32 },
}

} // verus!
