//! Token-bucket admission control behind a pluggable storage, with the rules
//! of a leaderless UDP dissemination protocol between instances.

pub mod algorithm;
pub mod bucket;
pub mod clock;
pub mod distributed;
pub mod error;
pub mod in_memory;
pub mod in_redis;

pub use algorithm::{Mode, RateLimitExceededError, State, TokenBucketAlgorithm};
pub use bucket::{Storage, TokenBucket};
pub use distributed::{DistributedStorageError, Strategy, WhitelistStrategy};
pub use error::Error;
pub use in_memory::InMemoryStorage;
pub use in_redis::RedisStorageError;
