//! Buckets that tell each other of their debits over UDP.

pub mod codec;
pub mod error;
pub mod message;
pub mod peer;
mod private;
pub mod processing;
pub mod strategy;
pub mod whitelist;

pub use codec::Codec;
pub use error::DistributedStorageError;
pub use message::{Content, ContentKind, Message, WhitelistContent};
pub use peer::PeerAddr;
pub use processing::{acquire, process, Action, Event, Step};
pub use strategy::{Outbound, Strategy};
pub use whitelist::WhitelistStrategy;
