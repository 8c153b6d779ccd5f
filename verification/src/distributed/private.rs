//! The mark that closes the set of strategies.

use vstd::prelude::*;
use crate::distributed::whitelist::WhitelistStrategy;

verus! {

/// Marks the strategies of this library. The module is private, so no type
/// outside the library can carry the mark, and none can be a `Strategy`.
pub trait Sealed {

}

impl Sealed for WhitelistStrategy {

}

} // verus!
