use tocket::in_redis::{
    instant_from_le_bytes, instant_to_le_bytes, transact, transact_at, RedisStorageError, Stored,
    AVAILABLE_TOKENS_KEY, I128_SIZE, LAST_REFILL_KEY, MAX_UNIX_SECONDS, MIN_UNIX_SECONDS,
};
use tocket::{Mode, TokenBucketAlgorithm};

const NEW_YEAR_2019: i128 = 1_546_300_800_000_000_000;
const TICK: u64 = 500_000_000;

fn exact() -> TokenBucketAlgorithm {
    TokenBucketAlgorithm::new(Mode::N)
}

#[test]
fn default_keys() {
    assert_eq!(AVAILABLE_TOKENS_KEY, "tocket::available_tokens");
    assert_eq!(LAST_REFILL_KEY, "tocket::last_refill");
    assert_eq!(I128_SIZE, 16);
}

#[test]
fn instants_are_stored_low_byte_first() {
    for x in [0i128, 1, -1, 255, 256, NEW_YEAR_2019, -NEW_YEAR_2019, i128::MAX, i128::MIN] {
        assert_eq!(instant_to_le_bytes(x), x.to_le_bytes().to_vec());
        assert_eq!(instant_from_le_bytes(&x.to_le_bytes()), x);
    }
}

#[test]
fn unset_keys_stand_for_a_full_bucket_refilled_now() {
    let stored = Stored { available_tokens: None, last_refill: None };
    let update = transact_at(&exact(), 2, TICK, "k", stored, 2, NEW_YEAR_2019).unwrap();
    assert_eq!(update.available_tokens, 0);
    assert_eq!(update.last_refill, NEW_YEAR_2019.to_le_bytes().to_vec());
    assert!(update.result.is_ok());
}

#[test]
fn refusal_still_writes_the_refill_back() {
    let stored = Stored {
        available_tokens: Some(0),
        last_refill: Some(NEW_YEAR_2019.to_le_bytes().to_vec()),
    };
    let now = NEW_YEAR_2019 + TICK as i128 + 1;
    let update = transact_at(&exact(), 2, TICK, "k", stored, 2, now).unwrap();
    assert!(update.result.is_err());
    assert_eq!(update.available_tokens, 1);
    assert_eq!(update.last_refill, (NEW_YEAR_2019 + TICK as i128).to_le_bytes().to_vec());
}

#[test]
fn grant_after_a_second_and_a_half() {
    let stored = Stored {
        available_tokens: Some(0),
        last_refill: Some(NEW_YEAR_2019.to_le_bytes().to_vec()),
    };
    let now = NEW_YEAR_2019 + 1_500_000_000;
    let update = transact_at(&exact(), 2, TICK, "k", stored, 2, now).unwrap();
    assert!(update.result.is_ok());
    assert_eq!(update.available_tokens, 0);
    assert_eq!(update.last_refill, (NEW_YEAR_2019 + 1_500_000_000).to_le_bytes().to_vec());
}

#[test]
fn instant_of_another_size_is_refused_with_key_and_value() {
    let stored = Stored { available_tokens: Some(1), last_refill: Some(vec![1, 2, 3]) };
    match transact_at(&exact(), 2, TICK, LAST_REFILL_KEY, stored, 1, 0) {
        Err(RedisStorageError::ConvertingBytesToI128Error { key, value }) => {
            assert_eq!(key, LAST_REFILL_KEY);
            assert_eq!(value, vec![1, 2, 3]);
        }
        other => panic!("unexpected {:?}", other),
    }
}

#[test]
fn instant_beyond_the_calendar_is_refused() {
    for x in [i128::MAX, i128::MIN] {
        let stored = Stored { available_tokens: None, last_refill: Some(x.to_le_bytes().to_vec()) };
        assert!(matches!(
            transact_at(&exact(), 2, TICK, "k", stored, 1, 0),
            Err(RedisStorageError::TimeComponentRangeError(_))
        ));
    }
}

#[test]
fn clocked_transaction_on_unset_keys() {
    let stored = Stored { available_tokens: None, last_refill: None };
    let update = transact(&TokenBucketAlgorithm::new(Mode::All), 5, TICK, "k", stored, 9).unwrap();
    assert!(update.result.is_ok());
    assert_eq!(update.available_tokens, 0);
    assert!(instant_from_le_bytes(&update.last_refill) > NEW_YEAR_2019);
}

fn stored_instant_is_accepted(nanos: i128) -> bool {
    let stored = Stored { available_tokens: None, last_refill: Some(nanos.to_le_bytes().to_vec()) };
    match transact_at(&exact(), 2, TICK, "k", stored, 1, nanos) {
        Ok(_) => true,
        Err(RedisStorageError::TimeComponentRangeError(_)) => false,
        Err(other) => panic!("unexpected {:?}", other),
    }
}

#[test]
fn calendar_runs_from_the_first_to_the_last_second() {
    let second: i128 = 1_000_000_000;
    let first = MIN_UNIX_SECONDS as i128 * second;
    let last = MAX_UNIX_SECONDS as i128 * second + (second - 1);
    assert_eq!(MIN_UNIX_SECONDS, -377_705_116_800);
    assert_eq!(MAX_UNIX_SECONDS, 253_402_300_799);
    assert!(stored_instant_is_accepted(first));
    assert!(!stored_instant_is_accepted(first - 1));
    assert!(stored_instant_is_accepted(last));
    assert!(!stored_instant_is_accepted(last + 1));
    assert!(stored_instant_is_accepted(-1));
    assert!(stored_instant_is_accepted(0));
}
