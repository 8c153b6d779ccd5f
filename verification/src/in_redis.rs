//! What a bucket kept in Redis computes between reading its two keys and
//! writing them back.

use vstd::prelude::*;
use vstd::bytes::{spec_u128_from_le_bytes, spec_u128_to_le_bytes, u128_from_le_bytes, u128_to_le_bytes};
use crate::algorithm::{RateLimitExceededError, State, TokenBucketAlgorithm};
use crate::clock::utc_now_nanos;

verus! {

/// Default key of available tokens in redis
pub const AVAILABLE_TOKENS_KEY: &'static str = "tocket::available_tokens";

/// Default key of last refill in redis
pub const LAST_REFILL_KEY: &'static str = "tocket::last_refill";

/// Bytes that the instant of the last refill takes under its key.
pub const I128_SIZE: usize = 16;

#[verifier::external_type_specification]
#[verifier::external_body]
pub struct ExComponentRange(time::error::ComponentRange);

/// The first second that the `time` crate has a date for, counted from the
/// Unix epoch: midnight of 1 January of the year -9999, UTC.
pub const MIN_UNIX_SECONDS: i64 = -377_705_116_800;

/// The last second that the `time` crate has a date for, counted from the
/// Unix epoch: the last of 31 December of the year 9999, UTC.
pub const MAX_UNIX_SECONDS: i64 = 253_402_300_799;

/// Whether the `time` crate has a date and time for the instant `nanos`
/// nanoseconds after the Unix epoch: whether its whole seconds, rounded
/// down, lie between the first and the last second of the calendar.
pub open spec fn datable(nanos: i128) -> bool {
    MIN_UNIX_SECONDS <= nanos as int / 1_000_000_000 <= MAX_UNIX_SECONDS
}

/// `OffsetDateTime::from_unix_timestamp_nanos` of the `time` crate, for its
/// verdict alone: the error with which the crate refuses an instant outside
/// the dates that it can hold. The crate divides `nanos` by the nanoseconds
/// of a second, rounding down, and refuses what lies outside the seconds of
/// its calendar, which here runs over the years -9999 to 9999.
#[verifier::external_body]
fn check_unix_nanos(nanos: i128) -> (r: Result<(), time::error::ComponentRange>)
    ensures
        r is Ok <==> datable(nanos),
{
    match time::OffsetDateTime::from_unix_timestamp_nanos(nanos) {
        Ok(_) => Ok(()),
        Err(e) => Err(e),
    }
}

#[derive(Debug)]
pub enum RedisStorageError {
    /// The stored instant is outside the dates that the calendar holds.
    TimeComponentRangeError(time::error::ComponentRange),
    /// The value under `key` is not the sixteen bytes of an instant.
    ConvertingBytesToI128Error { key: String, value: Vec<u8> },
}

/// What was read under the two keys; `None` for a key that is not set.
#[derive(Debug)]
pub struct Stored {
    pub available_tokens: Option<u32>,
    pub last_refill: Option<Vec<u8>>,
}

/// What to write under the two keys, and the answer to the request.
#[derive(Debug)]
pub struct Update {
    pub available_tokens: u32,
    pub last_refill: Vec<u8>,
    pub result: Result<(), RateLimitExceededError>,
}

/// The unsigned number that stands for a signed one in sixteen bytes (two's
/// complement).
pub open spec fn i128_to_bits(x: i128) -> u128 {
    if x >= 0 {
        x as u128
    } else {
        (x + 0x1_0000_0000_0000_0000_0000_0000_0000_0000) as u128
    }
}

/// The signed number that an unsigned one of sixteen bytes stands for.
pub open spec fn i128_from_bits(w: u128) -> i128 {
    if w <= i128::MAX {
        w as i128
    } else {
        (w - 0x1_0000_0000_0000_0000_0000_0000_0000_0000) as i128
    }
}

/// The instant stored as the sixteen bytes `b`, low byte first.
pub open spec fn instant_of_bytes(b: Seq<u8>) -> i128
    recommends
        b.len() == I128_SIZE,
{
    i128_from_bits(spec_u128_from_le_bytes(b))
}

/// The sixteen bytes, low byte first, that store the instant `x`.
pub open spec fn bytes_of_instant(x: i128) -> Seq<u8> {
    spec_u128_to_le_bytes(i128_to_bits(x))
}

/// The state that `stored` stands for in a bucket of capacity `cap`: a key
/// that is not set stands for a full bucket and for a last refill at `now`.
pub open spec fn loaded(cap: u32, refill_tick: u64, stored: Stored, now: i128) -> State {
    State {
        cap,
        available_tokens: match stored.available_tokens {
            Some(n) => n,
            None => cap,
        },
        last_refill: match stored.last_refill {
            Some(b) => instant_of_bytes(b@),
            None => now,
        },
        refill_tick,
    }
}

/// Whether `r` is the outcome of a request in the mode of `alg` for
/// `permits` at `now` on what was read. A stored instant that is not
/// sixteen bytes, or that the calendar cannot hold, is an error. Otherwise
/// the state after the request is written back, granted or not.
pub open spec fn transacted(
    alg: TokenBucketAlgorithm,
    cap: u32,
    refill_tick: u64,
    last_refill_key: Seq<char>,
    stored: Stored,
    permits: u32,
    now: i128,
    r: Result<Update, RedisStorageError>,
) -> bool {
    if stored.last_refill matches Some(b) && b@.len() != I128_SIZE {
        r matches Err(RedisStorageError::ConvertingBytesToI128Error { key, value })
            && key@ == last_refill_key && value@ == stored.last_refill->Some_0@
    } else if stored.last_refill matches Some(b) && !datable(instant_of_bytes(b@)) {
        r matches Err(RedisStorageError::TimeComponentRangeError(_))
    } else {
        let before = loaded(cap, refill_tick, stored, now);
        let after = before.acquired(alg.mode(), permits, now);
        &&& r matches Ok(update)
        &&& update.available_tokens == after.available_tokens
        &&& update.last_refill@ == bytes_of_instant(after.last_refill)
        &&& update.result is Ok <==> before.refilled(now).grants(alg.mode(), permits)
    }
}

/// The instant stored as `b`.
pub fn instant_from_le_bytes(b: &[u8]) -> (x: i128)
    requires
        b@.len() == I128_SIZE,
    ensures
        x == instant_of_bytes(b@),
{
    let w = u128_from_le_bytes(b);
    if w <= i128::MAX as u128 {
        w as i128
    } else {
        -((u128::MAX - w) as i128) - 1
    }
}

/// The bytes that store the instant `x`.
pub fn instant_to_le_bytes(x: i128) -> (b: Vec<u8>)
    ensures
        b@ == bytes_of_instant(x),
        b@.len() == I128_SIZE,
{
    let w: u128 = if x >= 0 {
        x as u128
    } else {
        u128::MAX - ((-(x + 1)) as u128)
    };
    u128_to_le_bytes(w)
}

/// Storing an instant and reading it back gives the instant.
pub proof fn lemma_instant_round_trip(x: i128)
    ensures
        bytes_of_instant(x).len() == I128_SIZE,
        instant_of_bytes(bytes_of_instant(x)) == x,
{
    vstd::bytes::lemma_auto_spec_u128_to_from_le_bytes();
    assert(spec_u128_to_le_bytes(i128_to_bits(x)).len() == 16);
}

/// Runs `alg` for `permits` at `now` on what was read under the two keys of
/// a bucket of capacity `cap` and tick `refill_tick`.
pub fn transact_at(
    alg: &TokenBucketAlgorithm,
    cap: u32,
    refill_tick: u64,
    last_refill_key: &str,
    stored: Stored,
    permits: u32,
    now: i128,
) -> (r: Result<Update, RedisStorageError>)
    ensures
        transacted(*alg, cap, refill_tick, last_refill_key@, stored, permits, now, r),
{
    let Stored { available_tokens, last_refill } = stored;
    let last_refill = match last_refill {
        Some(bytes) => {
            if bytes.len() != I128_SIZE {
                return Err(
                    RedisStorageError::ConvertingBytesToI128Error {
                        key: last_refill_key.to_owned(),
                        value: bytes,
                    },
                );
            }
            let nanos = instant_from_le_bytes(bytes.as_slice());
            match check_unix_nanos(nanos) {
                Ok(_) => nanos,
                Err(e) => {
                    return Err(RedisStorageError::TimeComponentRangeError(e));
                },
            }
        },
        None => now,
    };
    let mut state = State {
        cap,
        available_tokens: match available_tokens {
            Some(n) => n,
            None => cap,
        },
        last_refill,
        refill_tick,
    };
    let result = alg.try_acquire_at(&mut state, permits, now);
    Ok(
        Update {
            available_tokens: state.available_tokens,
            last_refill: instant_to_le_bytes(state.last_refill),
            result,
        },
    )
}

/// Runs `alg` for `permits` at the current time on what was read under the
/// two keys. The clock decides which instant that is: the outcome is the one
/// `transact_at` gives for some instant.
pub fn transact(
    alg: &TokenBucketAlgorithm,
    cap: u32,
    refill_tick: u64,
    last_refill_key: &str,
    stored: Stored,
    permits: u32,
) -> (r: Result<Update, RedisStorageError>)
    ensures
        exists|now: i128| #[trigger]
            transacted(*alg, cap, refill_tick, last_refill_key@, stored, permits, now, r),
{
    let now = utc_now_nanos();
    transact_at(alg, cap, refill_tick, last_refill_key, stored, permits, now)
}

} // verus!
