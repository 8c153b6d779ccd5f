use tocket::algorithm::{nanos_between, Mode, State, TokenBucketAlgorithm, NANOS_PER_SECOND};

const TICK: u64 = 500_000_000;

fn bucket(available: u32, last_refill: i128) -> State {
    State { cap: 2, available_tokens: available, last_refill, refill_tick: TICK }
}

#[test]
fn new_state_is_full_with_tick_of_one_second_over_limit() {
    let s = State::new(2, 77);
    assert_eq!(s, State { cap: 2, available_tokens: 2, last_refill: 77, refill_tick: 500_000_000 });
    assert_eq!(State::new(3, 0).refill_tick, 333_333_333);
    assert_eq!(State::new(1, 0).refill_tick, NANOS_PER_SECOND);
    assert_eq!(State::new(1_000_000_000, 0).refill_tick, 1);
    assert_eq!(State::new(u32::MAX, 0).refill_tick, 0);
}

#[test]
fn refill_is_nothing_until_more_than_one_tick_has_elapsed() {
    let alg = TokenBucketAlgorithm::new(Mode::N);
    for elapsed in [-5i128, 0, 1, TICK as i128 - 1, TICK as i128] {
        let mut s = bucket(0, 1_000);
        alg.refill_state_at(&mut s, 1_000 + elapsed);
        assert_eq!(s, bucket(0, 1_000), "elapsed {}", elapsed);
    }
}

#[test]
fn refill_at_tick_boundaries() {
    let alg = TokenBucketAlgorithm::new(Mode::N);
    let tick = TICK as i128;
    let mut s = bucket(0, 1_000);
    alg.refill_state_at(&mut s, 1_000 + tick + 1);
    assert_eq!(s, bucket(1, 1_000 + tick));

    let mut s = bucket(0, 1_000);
    alg.refill_state_at(&mut s, 1_000 + 2 * tick - 1);
    assert_eq!(s, bucket(1, 1_000 + tick));

    let mut s = bucket(0, 1_000);
    alg.refill_state_at(&mut s, 1_000 + 2 * tick);
    assert_eq!(s, bucket(2, 1_000 + 2 * tick));

    let mut s = bucket(0, 1_000);
    alg.refill_state_at(&mut s, 1_000 + 2 * tick + 1);
    assert_eq!(s, bucket(2, 1_000 + 2 * tick));
}

#[test]
fn two_whole_ticks_give_two_tokens() {
    let alg = TokenBucketAlgorithm::new(Mode::N);
    let start: i128 = 1_546_300_800_000_000_000;
    let mut s =
        State { cap: 10, available_tokens: 0, last_refill: start, refill_tick: 100_000_000 };
    alg.refill_state_at(&mut s, start + 200_000_000);
    assert_eq!(
        s,
        State {
            cap: 10,
            available_tokens: 2,
            last_refill: start + 200_000_000,
            refill_tick: 100_000_000
        }
    );
}

#[test]
fn refill_stops_at_capacity_and_advances_by_whole_ticks() {
    let alg = TokenBucketAlgorithm::new(Mode::N);
    let tick = TICK as i128;
    let mut s = bucket(1, -3);
    alg.refill_state_at(&mut s, -3 + 7 * tick + 123);
    assert_eq!(s, bucket(2, -3 + 7 * tick));
}

#[test]
fn refill_with_remote_instants_does_not_overflow() {
    let alg = TokenBucketAlgorithm::new(Mode::N);
    let mut s = bucket(0, i128::MIN);
    alg.refill_state_at(&mut s, i128::MAX);
    assert_eq!(s.available_tokens, 2);
    assert_eq!(s.cap, 2);
    let span = u128::MAX;
    let ticks = span / TICK as u128;
    let rest = span - ticks * TICK as u128;
    assert_eq!(s.last_refill, i128::MAX - rest as i128);
}

#[test]
fn refill_twice_at_one_instant_is_refill_once() {
    let alg = TokenBucketAlgorithm::new(Mode::N);
    for now in [0i128, 499_999_999, 500_000_001, 1_700_000_000, 9_999_999_999] {
        let mut once = bucket(0, 0);
        alg.refill_state_at(&mut once, now);
        let mut twice = once;
        alg.refill_state_at(&mut twice, now);
        assert_eq!(once, twice);
    }
}

#[test]
fn zero_tick_bucket_is_full_once_time_has_passed() {
    let alg = TokenBucketAlgorithm::new(Mode::N);
    let mut s = State { cap: 9, available_tokens: 4, last_refill: 10, refill_tick: 0 };
    alg.refill_state_at(&mut s, 10);
    assert_eq!(s.available_tokens, 4);
    alg.refill_state_at(&mut s, 11);
    assert_eq!(s, State { cap: 9, available_tokens: 9, last_refill: 10, refill_tick: 0 });
}

#[test]
fn exact_mode_takes_all_or_nothing() {
    let alg = TokenBucketAlgorithm::new(Mode::N);
    let mut s = bucket(2, 0);
    assert!(alg.try_acquire_at(&mut s, 2, 0).is_ok());
    assert_eq!(s, bucket(0, 0));
    assert!(alg.try_acquire_at(&mut s, 1, 0).is_err());
    assert_eq!(s, bucket(0, 0));
    assert!(alg.try_acquire_at(&mut s, 0, 0).is_ok());
    assert_eq!(s, bucket(0, 0));
}

#[test]
fn exact_mode_failure_keeps_the_refill() {
    let alg = TokenBucketAlgorithm::new(Mode::N);
    let mut s = bucket(0, 0);
    assert!(alg.try_acquire_at(&mut s, 2, TICK as i128 + 1).is_err());
    assert_eq!(s, bucket(1, TICK as i128));
}

#[test]
fn up_to_all_mode_takes_the_smaller() {
    let alg = TokenBucketAlgorithm::new(Mode::All);
    let mut s = bucket(2, 0);
    assert!(alg.try_acquire_at(&mut s, 1, 0).is_ok());
    assert_eq!(s.available_tokens, 1);
    assert!(alg.try_acquire_at(&mut s, 5, 0).is_ok());
    assert_eq!(s.available_tokens, 0);
    assert!(alg.try_acquire_at(&mut s, 5, 0).is_ok());
    assert_eq!(s.available_tokens, 0);
}

#[test]
fn available_stays_within_capacity_over_a_run_of_calls() {
    let exact = TokenBucketAlgorithm::new(Mode::N);
    let all = TokenBucketAlgorithm::new(Mode::All);
    let mut s = State::new(7, 0);
    let mut now: i128 = 0;
    for i in 0..500u32 {
        now += ((i as i128) * 37_000_001) % 400_000_000;
        let permits = i % 5;
        let _ = if i % 3 == 0 {
            all.try_acquire_at(&mut s, permits, now)
        } else {
            exact.try_acquire_at(&mut s, permits, now)
        };
        assert!(s.available_tokens <= s.cap);
        assert_eq!(s.cap, 7);
    }
}

#[test]
fn clocked_acquire_debits_a_full_bucket() {
    let alg = TokenBucketAlgorithm::new(Mode::N);
    let mut s = State { cap: 2, available_tokens: 2, last_refill: i128::MAX, refill_tick: TICK };
    assert!(alg.try_acquire(&mut s, 2).is_ok());
    assert_eq!(s.available_tokens, 0);
    assert!(alg.try_acquire(&mut s, 1).is_err());
    assert_eq!(alg.get_mode(), Mode::N);
}

#[test]
fn clocked_acquire_refills_from_a_past_instant() {
    let alg = TokenBucketAlgorithm::new(Mode::N);
    let mut s = State { cap: 2, available_tokens: 0, last_refill: 0, refill_tick: TICK };
    assert!(alg.try_acquire(&mut s, 2).is_ok());
    assert_eq!(s.available_tokens, 0);
    assert!(s.last_refill > 1_600_000_000_000_000_000);
}

#[test]
fn distance_between_instants() {
    assert_eq!(nanos_between(5, 5), 0);
    assert_eq!(nanos_between(5, -5), 10);
    assert_eq!(nanos_between(-5, -7), 2);
    assert_eq!(nanos_between(i128::MAX, i128::MIN), u128::MAX);
}
