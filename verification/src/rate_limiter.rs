//! A token-bucket admission gate for outbound requests.
//!
//! The bucket holds up to `capacity` tokens and gains `quantum` tokens per
//! `interval_ms` milliseconds; every admitted request debits one token. The
//! caller supplies the current time, so the whole behaviour is a function of
//! the state and the clock value and is verified for every clock value.

use vstd::arithmetic::div_mod::lemma_div_is_ordered;
use vstd::arithmetic::div_mod::lemma_div_pos_is_pos;
use vstd::arithmetic::div_mod::lemma_fundamental_div_mod;
use vstd::arithmetic::div_mod::lemma_hoist_over_denominator;
use vstd::arithmetic::mul::lemma_mul_inequality;
use vstd::arithmetic::mul::lemma_mul_is_commutative;
use vstd::arithmetic::mul::lemma_mul_is_distributive_add;
use vstd::prelude::*;

verus! {

/// The mathematical state of the token bucket.
pub ghost struct LimiterModel {
    /// The most tokens the bucket ever holds.
    pub capacity: int,
    /// Tokens credited per elapsed refill interval.
    pub quantum: int,
    /// The length of one refill interval, in milliseconds.
    pub interval_ms: int,
    /// Tokens available right now.
    pub available: int,
    /// The clock value at which the next refill is due.
    pub next_refill_ms: int,
}

impl LimiterModel {
    /// A valid bucket: positive refill rate, and never more tokens than the
    /// capacity.
    pub open spec fn wf(self) -> bool {
        &&& 1 <= self.quantum
        &&& 1 <= self.interval_ms
        &&& 0 <= self.available <= self.capacity
        &&& 0 <= self.next_refill_ms
    }
}

/// The bucket after crediting every refill interval that has elapsed by
/// `now_ms`: unchanged before the refill deadline; otherwise each elapsed
/// interval adds `quantum` tokens, capped at `capacity`, and the deadline
/// moves to the first grid point past `now_ms`.
pub open spec fn spec_refill(m: LimiterModel, now_ms: int) -> LimiterModel {
    if now_ms < m.next_refill_ms {
        m
    } else {
        let intervals = (now_ms - m.next_refill_ms) / m.interval_ms + 1;
        let added = m.available + m.quantum * intervals;
        LimiterModel {
            available: if added > m.capacity {
                m.capacity
            } else {
                added
            },
            next_refill_ms: m.next_refill_ms + intervals * m.interval_ms,
            ..m
        }
    }
}

/// One admission check at `now_ms`: refill, then debit one token if any is
/// available. The boolean says whether the caller was admitted.
pub open spec fn spec_try_acquire(m: LimiterModel, now_ms: int) -> (LimiterModel, bool) {
    let r = spec_refill(m, now_ms);
    if r.available > 0 {
        (LimiterModel { available: r.available - 1, ..r }, true)
    } else {
        (r, false)
    }
}

/// A token-bucket rate limiter over a caller-supplied millisecond clock.
pub struct RateLimiter {
    capacity: u64,
    quantum: u64,
    interval_ms: u64,
    available: u64,
    next_refill_ms: u64,
}

impl View for RateLimiter {
    type V = LimiterModel;

    closed spec fn view(&self) -> LimiterModel {
        LimiterModel {
            capacity: self.capacity as int,
            quantum: self.quantum as int,
            interval_ms: self.interval_ms as int,
            available: self.available as int,
            next_refill_ms: self.next_refill_ms as int,
        }
    }
}

impl RateLimiter {
    /// A valid limiter: its model is a valid bucket.
    pub open spec fn wf(self) -> bool {
        self@.wf()
    }

    /// Builds a bucket that starts full, with its first refill one interval
    /// after `now_ms`.
    pub fn new(capacity: u64, quantum: u64, interval_ms: u64, now_ms: u64) -> (r: RateLimiter)
        requires
            1 <= quantum,
            1 <= interval_ms,
            now_ms + interval_ms <= u64::MAX,
        ensures
            r@ == (LimiterModel {
                capacity: capacity as int,
                quantum: quantum as int,
                interval_ms: interval_ms as int,
                available: capacity as int,
                next_refill_ms: now_ms + interval_ms,
            }),
            r.wf(),
    {
        RateLimiter {
            capacity,
            quantum,
            interval_ms,
            available: capacity,
            next_refill_ms: now_ms + interval_ms,
        }
    }

    /// Non-blocking admission check at clock value `now_ms`: admits the
    /// caller and debits one token exactly when a token is available after
    /// refilling, as `spec_try_acquire` describes; otherwise refuses with no
    /// effect beyond the refill bookkeeping.
    pub fn try_acquire(&mut self, now_ms: u64) -> (granted: bool)
        requires
            old(self).wf(),
            now_ms + old(self)@.interval_ms <= u64::MAX,
        ensures
            final(self)@ == spec_try_acquire(old(self)@, now_ms as int).0,
            granted == spec_try_acquire(old(self)@, now_ms as int).1,
            final(self).wf(),
    {
        let ghost m = old(self)@;
        if now_ms >= self.next_refill_ms {
            let elapsed = now_ms - self.next_refill_ms;
            proof {
                lemma_fundamental_div_mod(elapsed as int, m.interval_ms);
                lemma_mul_is_distributive_add(
                    m.interval_ms,
                    elapsed as int / m.interval_ms,
                    1,
                );
                lemma_mul_is_commutative(m.interval_ms, elapsed as int / m.interval_ms + 1);
                assert((elapsed as int / m.interval_ms + 1) * m.interval_ms <= elapsed
                    + m.interval_ms);
            }
            let intervals = elapsed / self.interval_ms + 1;
            let advance = intervals * self.interval_ms;
            let quotient = self.capacity / self.quantum;
            let refilled = if intervals > quotient {
                proof {
                    lemma_fundamental_div_mod(m.capacity, m.quantum);
                    lemma_mul_inequality(
                        m.capacity / m.quantum + 1,
                        intervals as int,
                        m.quantum,
                    );
                    lemma_mul_is_distributive_add(m.quantum, m.capacity / m.quantum, 1);
                    lemma_mul_is_commutative(m.quantum, m.capacity / m.quantum + 1);
                    lemma_mul_is_commutative(m.quantum, intervals as int);
                    assert(m.quantum * (intervals as int) > m.capacity);
                }
                self.capacity
            } else {
                proof {
                    lemma_fundamental_div_mod(m.capacity, m.quantum);
                    lemma_mul_inequality(intervals as int, m.capacity / m.quantum, m.quantum);
                    lemma_mul_is_commutative(m.quantum, m.capacity / m.quantum);
                    lemma_mul_is_commutative(m.quantum, intervals as int);
                    assert(m.quantum * (intervals as int) <= m.capacity);
                }
                let gained = self.quantum * intervals;
                if self.available > self.capacity - gained {
                    self.capacity
                } else {
                    self.available + gained
                }
            };
            self.available = refilled;
            self.next_refill_ms = self.next_refill_ms + advance;
        }
        if self.available > 0 {
            self.available = self.available - 1;
            true
        } else {
            false
        }
    }
}

/// The state and number of grants after a whole sequence of admission
/// checks, earliest call first.
pub open spec fn spec_run(m: LimiterModel, times: Seq<int>) -> (LimiterModel, nat)
    decreases times.len(),
{
    if times.len() == 0 {
        (m, 0)
    } else {
        let step = spec_try_acquire(m, times[0]);
        let rest = spec_run(step.0, times.drop_first());
        (rest.0, rest.1 + if step.1 {
            1nat
        } else {
            0nat
        })
    }
}

/// Burst bound: checks made before the next refill deadline are granted at
/// most `available` times in total — and so never more than `capacity` —
/// however many callers interleave them. Each grant permanently debits a
/// token, so grants plus leftover tokens never exceed the starting tokens.
pub proof fn lemma_burst_bound(m: LimiterModel, times: Seq<int>)
    requires
        m.wf(),
        forall|i: int| 0 <= i < times.len() ==> #[trigger] times[i] < m.next_refill_ms,
    ensures
        spec_run(m, times).1 + spec_run(m, times).0.available <= m.available,
        spec_run(m, times).1 <= m.available,
        spec_run(m, times).1 <= m.capacity,
        spec_run(m, times).0.next_refill_ms == m.next_refill_ms,
        spec_run(m, times).0.wf(),
    decreases times.len(),
{
    if times.len() > 0 {
        let step = spec_try_acquire(m, times[0]);
        let tail = times.drop_first();
        assert(forall|i: int| 0 <= i < tail.len() ==> #[trigger] tail[i] < step.0.next_refill_ms)
            by {
            assert(forall|i: int| 0 <= i < tail.len() ==> tail[i] == times[i + 1]);
        }
        lemma_burst_bound(step.0, tail);
    }
}

/// Rate bound: over any window of checks that all happen before `bound`,
/// grants plus leftover tokens never exceed the tokens on hand plus the
/// refill rate — `quantum` tokens for each refill interval the window can
/// contain. Over a long window the achieved rate therefore approaches
/// `quantum` grants per interval.
pub proof fn lemma_rate_bound(m: LimiterModel, times: Seq<int>, bound: int)
    requires
        m.wf(),
        m.next_refill_ms <= bound,
        forall|i: int| 0 <= i < times.len() ==> #[trigger] times[i] < bound,
    ensures
        spec_run(m, times).1 + spec_run(m, times).0.available <= m.available + m.quantum * ((bound
            - m.next_refill_ms) / m.interval_ms + 1),
    decreases times.len(),
{
    let k = (bound - m.next_refill_ms) / m.interval_ms + 1;
    lemma_div_pos_is_pos(bound - m.next_refill_ms, m.interval_ms);
    if times.len() == 0 {
        lemma_mul_inequality(1, k, m.quantum);
        lemma_mul_is_commutative(m.quantum, k);
        assert(m.quantum * k >= 1 * m.quantum);
    } else {
        let t = times[0];
        let step = spec_try_acquire(m, t);
        let m1 = step.0;
        let tail = times.drop_first();
        assert(forall|i: int| 0 <= i < tail.len() ==> #[trigger] tail[i] < bound) by {
            assert(forall|i: int| 0 <= i < tail.len() ==> tail[i] == times[i + 1]);
        }
        if t < m.next_refill_ms {
            lemma_rate_bound(m1, tail, bound);
        } else {
            let j = (t - m.next_refill_ms) / m.interval_ms + 1;
            lemma_div_is_ordered(t - m.next_refill_ms, bound - m.next_refill_ms, m.interval_ms);
            lemma_div_pos_is_pos(t - m.next_refill_ms, m.interval_ms);
            assert(1 <= j <= k);
            assert(m1.next_refill_ms == m.next_refill_ms + j * m.interval_ms);
            assert(m1.available + (if step.1 {
                1int
            } else {
                0int
            }) <= m.available + m.quantum * j);
            if m1.next_refill_ms <= bound {
                lemma_rate_bound(m1, tail, bound);
                let k1 = (bound - m1.next_refill_ms) / m.interval_ms + 1;
                assert(k1 == k - j) by {
                    lemma_hoist_over_denominator(
                        bound - m1.next_refill_ms,
                        j,
                        m.interval_ms as nat,
                    );
                    lemma_mul_is_commutative(j, m.interval_ms);
                }
                lemma_mul_is_distributive_add(m.quantum, k - j, j);
            } else {
                lemma_burst_bound(m1, tail);
                lemma_mul_inequality(j, k, m.quantum);
                lemma_mul_is_commutative(m.quantum, j);
                lemma_mul_is_commutative(m.quantum, k);
            }
        }
    }
}

/// A starved bucket refuses and stays unchanged until its refill deadline.
pub proof fn lemma_starved_until_refill(m: LimiterModel, now_ms: int)
    requires
        m.wf(),
        m.available == 0,
        now_ms < m.next_refill_ms,
    ensures
        spec_try_acquire(m, now_ms) == (m, false),
{
}

/// After starvation, grants resume only once a refill interval has elapsed:
/// a granted check implies a token was left, or the check came at or after
/// the refill deadline.
pub proof fn lemma_grant_needs_token_or_refill(m: LimiterModel, now_ms: int)
    requires
        m.wf(),
        spec_try_acquire(m, now_ms).1,
    ensures
        m.available > 0 || now_ms >= m.next_refill_ms,
{
}

} // verus!
