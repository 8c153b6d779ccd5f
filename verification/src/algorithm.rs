//! The token-bucket arithmetic: refill by whole ticks, then debit.

use vstd::prelude::*;
use crate::clock::utc_now_nanos;

verus! {

/// Nanoseconds in one second.
pub const NANOS_PER_SECOND: u64 = 1_000_000_000;

/// State of a token bucket. Instants are nanoseconds since the Unix epoch,
/// durations are nanoseconds.
#[derive(Debug, Clone, Copy, PartialEq, Eq)]
pub struct State {
    pub cap: u32,
    pub available_tokens: u32,
    pub last_refill: i128,
    pub refill_tick: u64,
}

/// How many tokens a call asks for.
#[derive(Debug, Clone, Copy, PartialEq, Eq)]
pub enum Mode {
    /// Exactly the requested number, or nothing.
    N,
    /// The requested number, or all that is left if that is less.
    All,
}

/// The bucket holds fewer tokens than an exact request asked for.
#[derive(Debug)]
pub struct RateLimitExceededError(());

/// Struct that implements token bucket algorithm.
#[derive(Debug)]
pub struct TokenBucketAlgorithm {
    mode: Mode,
}

/// The smaller of two integers.
pub open spec fn min_int(a: int, b: int) -> int {
    if a <= b { a } else { b }
}

impl State {
    /// The bucket never holds more than its capacity.
    pub open spec fn wf(&self) -> bool {
        self.available_tokens <= self.cap
    }

    /// The tick of a bucket that refills `rps_limit` tokens per second.
    pub open spec fn tick_of(rps_limit: u32) -> int
        recommends rps_limit >= 1,
    {
        NANOS_PER_SECOND as int / rps_limit as int
    }

    /// A full bucket of `rps_limit` tokens, last refilled at `now`.
    pub open spec fn full(rps_limit: u32, now: i128) -> State {
        State {
            cap: rps_limit,
            available_tokens: rps_limit,
            last_refill: now,
            refill_tick: Self::tick_of(rps_limit) as u64,
        }
    }

    /// Number of whole ticks that have elapsed at `now`: none while at most
    /// one tick has elapsed, afterwards the largest `k` with
    /// `k * refill_tick <= now - last_refill`.
    pub open spec fn whole_ticks(&self, now: i128) -> int
        recommends
            self.refill_tick > 0,
    {
        let elapsed = now - self.last_refill;
        if elapsed <= self.refill_tick {
            0
        } else {
            elapsed / (self.refill_tick as int)
        }
    }

    /// The state after a refill at `now`. While at most one tick has elapsed
    /// nothing changes. Afterwards every whole tick adds a token, up to the
    /// capacity, and `last_refill` advances by those ticks only. A bucket
    /// whose tick is below the clock's resolution (zero) is full as soon as
    /// any time has elapsed.
    pub open spec fn refilled(self, now: i128) -> State {
        if now - self.last_refill <= self.refill_tick {
            self
        } else if self.refill_tick == 0 {
            State { available_tokens: self.cap, ..self }
        } else {
            let ticks = self.whole_ticks(now);
            State {
                available_tokens: min_int(self.available_tokens + ticks, self.cap as int) as u32,
                last_refill: (self.last_refill + ticks * self.refill_tick) as i128,
                ..self
            }
        }
    }

    /// Whether a request of `permits` in `mode` is granted by a bucket in
    /// this state (taken after its refill).
    pub open spec fn grants(self, mode: Mode, permits: u32) -> bool {
        mode is All || self.available_tokens >= permits
    }

    /// Tokens that a request of `permits` in `mode` takes from a bucket in
    /// this state (taken after its refill).
    pub open spec fn debit(self, mode: Mode, permits: u32) -> int {
        if self.available_tokens >= permits {
            permits as int
        } else {
            match mode {
                Mode::N => 0,
                Mode::All => self.available_tokens as int,
            }
        }
    }

    /// The state after a request of `permits` in `mode` at `now`: refill,
    /// then debit.
    pub open spec fn acquired(self, mode: Mode, permits: u32, now: i128) -> State {
        let r = self.refilled(now);
        State { available_tokens: (r.available_tokens - r.debit(mode, permits)) as u32, ..r }
    }

    /// A full bucket of `rps_limit` tokens per second, last refilled at `now`.
    pub fn new(rps_limit: u32, now: i128) -> (s: State)
        requires
            rps_limit >= 1,
        ensures
            s == State::full(rps_limit, now),
            s.wf(),
    {
        State {
            cap: rps_limit,
            available_tokens: rps_limit,
            last_refill: now,
            refill_tick: NANOS_PER_SECOND / (rps_limit as u64),
        }
    }
}

/// The distance from `earlier` to `later`, which always fits 128 bits.
pub fn nanos_between(later: i128, earlier: i128) -> (d: u128)
    requires
        earlier <= later,
    ensures
        d == later - earlier,
{
    if earlier >= 0 || later < 0 {
        (later - earlier) as u128
    } else {
        let below: u128 = (-(earlier + 1)) as u128;
        (later as u128) + below + 1
    }
}

impl TokenBucketAlgorithm {
    pub fn new(mode: Mode) -> (alg: TokenBucketAlgorithm)
        ensures
            alg.mode() == mode,
    {
        TokenBucketAlgorithm { mode }
    }

    pub closed spec fn mode(&self) -> Mode {
        self.mode
    }

    /// The mode that this algorithm debits in.
    pub fn get_mode(&self) -> (m: Mode)
        ensures
            m == self.mode(),
    {
        self.mode
    }

    /// Refills at the current time, then debits `permits`. The clock decides
    /// which instant that is: the outcome is the one `try_acquire_at` gives
    /// for some instant.
    pub fn try_acquire(&self, state: &mut State, permits: u32) -> (r: Result<
        (),
        RateLimitExceededError,
    >)
        ensures
            exists|now: i128|
                {
                    &&& *final(state) == #[trigger] old(state).acquired(self.mode(), permits, now)
                    &&& r is Ok <==> old(state).refilled(now).grants(self.mode(), permits)
                },
            old(state).wf() ==> final(state).wf(),
            self.mode() is All || permits == 0 ==> r is Ok,
    {
        let now = utc_now_nanos();
        self.try_acquire_at(state, permits, now)
    }

    /// Refills at `now`, then debits `permits`: in mode `N` all of them or,
    /// with an error, none; in mode `All` as many of them as are there.
    pub fn try_acquire_at(&self, state: &mut State, permits: u32, now: i128) -> (r: Result<
        (),
        RateLimitExceededError,
    >)
        ensures
            *final(state) == old(state).acquired(self.mode(), permits, now),
            r is Ok <==> old(state).refilled(now).grants(self.mode(), permits),
            old(state).wf() ==> final(state).wf(),
            self.mode() is All || permits == 0 ==> r is Ok,
    {
        self.refill_state_at(state, now);
        match self.mode {
            Mode::N => {
                if state.available_tokens >= permits {
                    state.available_tokens -= permits;
                    Ok(())
                } else {
                    Err(RateLimitExceededError(()))
                }
            },
            Mode::All => {
                let taken: u32 = if permits <= state.available_tokens {
                    permits
                } else {
                    state.available_tokens
                };
                state.available_tokens -= taken;
                Ok(())
            },
        }
    }

    /// Adds the tokens of the whole ticks that have elapsed at `now`.
    pub fn refill_state_at(&self, state: &mut State, now: i128)
        ensures
            *final(state) == old(state).refilled(now),
            old(state).wf() ==> final(state).wf(),
    {
        if now <= state.last_refill {
            return ;
        }
        let elapsed: u128 = nanos_between(now, state.last_refill);
        let tick: u128 = state.refill_tick as u128;
        if elapsed <= tick {
            return ;
        }
        if tick == 0 {
            state.available_tokens = state.cap;
            return ;
        }
        let ticks: u128 = elapsed / tick;
        proof {
            lemma_ticks_bounds(elapsed as int, tick as int);
        }
        let rest: u128 = elapsed - ticks * tick;
        if state.available_tokens >= state.cap {
            state.available_tokens = state.cap;
        } else {
            let room: u32 = state.cap - state.available_tokens;
            if ticks >= room as u128 {
                state.available_tokens = state.cap;
            } else {
                state.available_tokens = state.available_tokens + (ticks as u32);
            }
        }
        state.last_refill = now - (rest as i128);
    }
}

/// One request: its mode, its permits and the instant at which it is made.
pub struct Call {
    pub mode: Mode,
    pub permits: u32,
    pub now: i128,
}

/// The state after the requests `calls`, made one after the other on `s`.
pub open spec fn after_calls(s: State, calls: Seq<Call>) -> State
    decreases calls.len(),
{
    if calls.len() == 0 {
        s
    } else {
        let c = calls.last();
        after_calls(s, calls.drop_last()).acquired(c.mode, c.permits, c.now)
    }
}

/// A refill never takes the bucket above its capacity, and leaves capacity
/// and tick as they are.
pub proof fn lemma_refill_keeps_bounds(s: State, now: i128)
    requires
        s.wf(),
    ensures
        s.refilled(now).wf(),
        s.refilled(now).cap == s.cap,
        s.refilled(now).refill_tick == s.refill_tick,
        s.refilled(now).available_tokens >= s.available_tokens,
{
    if now - s.last_refill > s.refill_tick && s.refill_tick > 0 {
        lemma_ticks_bounds(now - s.last_refill, s.refill_tick as int);
    }
}

/// A refill moves `last_refill` forward only, by whole ticks, and never
/// past `now`: what is left of the elapsed time is at most one tick, and
/// less than one after a refill that added tokens.
pub proof fn lemma_refill_keeps_remainder(s: State, now: i128)
    requires
        s.refill_tick > 0,
        s.last_refill <= now,
    ensures
        s.last_refill <= s.refilled(now).last_refill <= now,
        now - s.refilled(now).last_refill <= s.refill_tick,
        now - s.last_refill > s.refill_tick ==> now - s.refilled(now).last_refill < s.refill_tick,
        s.refilled(now).last_refill - s.last_refill == s.whole_ticks(now) * s.refill_tick,
{
    if now - s.last_refill > s.refill_tick {
        lemma_ticks_bounds(now - s.last_refill, s.refill_tick as int);
    }
}

/// A request never takes the bucket above its capacity nor below zero, and
/// leaves capacity and tick as they are.
pub proof fn lemma_acquire_keeps_bounds(s: State, mode: Mode, permits: u32, now: i128)
    requires
        s.wf(),
    ensures
        s.acquired(mode, permits, now).wf(),
        s.acquired(mode, permits, now).cap == s.cap,
        s.acquired(mode, permits, now).refill_tick == s.refill_tick,
        0 <= s.acquired(mode, permits, now).available_tokens <= s.cap,
{
    lemma_refill_keeps_bounds(s, now);
}

/// Whatever the limit of at least one token per second and whatever the
/// requests and their instants, the bucket holds between zero and `cap`
/// tokens after them, its capacity is still the limit and its tick still
/// one second over the limit.
pub proof fn lemma_bounds_hold_always(rps_limit: u32, start: i128, calls: Seq<Call>)
    requires
        rps_limit >= 1,
    ensures
        after_calls(State::full(rps_limit, start), calls).wf(),
        after_calls(State::full(rps_limit, start), calls).cap == rps_limit,
        after_calls(State::full(rps_limit, start), calls).refill_tick == State::tick_of(rps_limit),
        0 <= after_calls(State::full(rps_limit, start), calls).available_tokens <= rps_limit,
    decreases calls.len(),
{
    if calls.len() > 0 {
        let c = calls.last();
        lemma_bounds_hold_always(rps_limit, start, calls.drop_last());
        lemma_acquire_keeps_bounds(
            after_calls(State::full(rps_limit, start), calls.drop_last()),
            c.mode,
            c.permits,
            c.now,
        );
    }
}

/// A second refill at the same instant changes nothing.
pub proof fn lemma_refill_idempotent(s: State, now: i128)
    ensures
        s.refilled(now).refilled(now) == s.refilled(now),
{
    if now - s.last_refill > s.refill_tick && s.refill_tick > 0 {
        lemma_ticks_bounds(now - s.last_refill, s.refill_tick as int);
    }
}

/// In mode `N` a request is granted if and only if the refilled bucket
/// holds at least `permits`. A granted request takes exactly `permits`; a
/// refused one leaves the refilled bucket as it is.
pub proof fn lemma_exact_mode(s: State, permits: u32, now: i128)
    ensures
        s.refilled(now).grants(Mode::N, permits) <==> s.refilled(now).available_tokens >= permits,
        s.refilled(now).grants(Mode::N, permits) ==> s.acquired(
            Mode::N,
            permits,
            now,
        ).available_tokens == s.refilled(now).available_tokens - permits,
        !s.refilled(now).grants(Mode::N, permits) ==> s.acquired(Mode::N, permits, now)
            == s.refilled(now),
{
}

/// In mode `All` every request is granted and takes the smaller of
/// `permits` and what the refilled bucket holds.
pub proof fn lemma_up_to_all_mode(s: State, permits: u32, now: i128)
    ensures
        s.refilled(now).grants(Mode::All, permits),
        s.acquired(Mode::All, permits, now).available_tokens == s.refilled(now).available_tokens
            - min_int(permits as int, s.refilled(now).available_tokens as int),
        s.acquired(Mode::All, permits, now).last_refill == s.refilled(now).last_refill,
{
}

/// With `k = elapsed / tick` for `elapsed > tick > 0`: at least one tick has
/// passed, the ticks counted have all elapsed, and less than one tick is
/// left over.
pub proof fn lemma_ticks_bounds(elapsed: int, tick: int)
    requires
        0 < tick < elapsed,
    ensures
        1 <= elapsed / tick,
        (elapsed / tick) * tick <= elapsed,
        elapsed - (elapsed / tick) * tick < tick,
{
    let k = elapsed / tick;
    assert(elapsed == tick * k + elapsed % tick) by {
        vstd::arithmetic::div_mod::lemma_fundamental_div_mod(elapsed, tick);
    }
    assert(0 <= elapsed % tick < tick) by {
        vstd::arithmetic::div_mod::lemma_mod_bound(elapsed, tick);
    }
    assert(k * tick == tick * k) by (nonlinear_arith);
    assert(k >= 1) by (nonlinear_arith)
        requires
            elapsed == tick * k + elapsed % tick,
            elapsed % tick < tick,
            elapsed > tick,
            tick > 0,
    ;
}

} // verus!
