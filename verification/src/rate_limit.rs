//! A token-bucket rate limiter per client: each client's bucket starts full,
//! refills by `tokens_per_second` for every whole second that passed (up to
//! `max_tokens`), and a request is let through when it can take a token.
//! Times are monotonic nanoseconds.
use vstd::hash_map::StringHashMap;
use vstd::prelude::*;

verus! {

/// Nanoseconds in a second.
pub const NANOS_PER_SEC: u64 = 1_000_000_000;

/// The whole seconds from `last` to `now` (none when `now` is earlier), as
/// `Instant::duration_since(..).as_secs()` counts them.
pub open spec fn whole_seconds(last: int, now: int) -> int {
    if now >= last {
        (now - last) / NANOS_PER_SEC as int
    } else {
        0
    }
}

/// A bucket (tokens, time of the last refill) after a request at `now`, and
/// whether the request is let through. A refill below the range of `i64`
/// (only a negative rate drains a bucket that far) stops at its bottom.
pub open spec fn bucket_step(bucket: Option<(int, int)>, now: int, rate: int, max: int) -> ((int, int), bool) {
    let (t0, last) = match bucket {
        Some(b) => b,
        None => (max, now),
    };
    let elapsed = whole_seconds(last, now);
    let refill = t0 + elapsed * rate;
    let (t1, l1) = if elapsed > 0 {
        (
            if refill < max {
                if refill < i64::MIN {
                    i64::MIN as int
                } else {
                    refill
                }
            } else {
                max
            },
            now,
        )
    } else {
        (t0, last)
    };
    if t1 > 0 {
        ((t1 - 1, l1), true)
    } else {
        ((t1, l1), false)
    }
}

/// The per-client token buckets.
pub struct RateLimiter {
    buckets: StringHashMap<(i64, u64)>,
    tokens_per_second: i64,
    max_tokens: i64,
}

/// What a rate limiter holds: each client's bucket, the refill rate and the
/// capacity.
pub struct RateLimiterView {
    pub buckets: Map<Seq<char>, (int, int)>,
    pub tokens_per_second: int,
    pub max_tokens: int,
}

impl View for RateLimiter {
    type V = RateLimiterView;

    closed spec fn view(&self) -> RateLimiterView {
        RateLimiterView {
            buckets: self.buckets@.map_values(|b: (i64, u64)| (b.0 as int, b.1 as int)),
            tokens_per_second: self.tokens_per_second as int,
            max_tokens: self.max_tokens as int,
        }
    }
}

impl RateLimiter {
    /// No bucket holds more than the capacity.
    #[verifier::type_invariant]
    spec fn buckets_within_capacity(&self) -> bool {
        forall|k: Seq<char>| #[trigger]
            self.buckets@.contains_key(k) ==> self.buckets@[k].0 <= self.max_tokens
    }

    /// The bucket of a client, if it made a request before.
    pub open spec fn bucket_of(v: RateLimiterView, key: Seq<char>) -> Option<(int, int)> {
        if v.buckets.contains_key(key) {
            Some(v.buckets[key])
        } else {
            None
        }
    }

    /// A limiter with no buckets yet.
    pub fn new(tokens_per_second: i64, max_tokens: i64) -> (r: Self)
        ensures
            r@.buckets.is_empty(),
            r@.tokens_per_second == tokens_per_second,
            r@.max_tokens == max_tokens,
    {
        let r = RateLimiter { buckets: StringHashMap::new(), tokens_per_second, max_tokens };
        assert(r@.buckets =~= Map::<Seq<char>, (int, int)>::empty());
        r
    }

    /// Takes a token from the bucket of `key` at time `now`, after refilling
    /// it; `false` when the bucket is empty.
    pub fn check_rate(&mut self, key: &str, now: u64) -> (r: bool)
        ensures
            ({
                let (b, allowed) = bucket_step(
                    RateLimiter::bucket_of(old(self)@, key@),
                    now as int,
                    old(self)@.tokens_per_second,
                    old(self)@.max_tokens,
                );
                &&& r == allowed
                &&& final(self)@.buckets == old(self)@.buckets.insert(key@, b)
                &&& final(self)@.tokens_per_second == old(self)@.tokens_per_second
                &&& final(self)@.max_tokens == old(self)@.max_tokens
            }),
            forall|k: Seq<char>| #[trigger]
                final(self)@.buckets.contains_key(k) ==> final(self)@.buckets[k].0
                    <= final(self)@.max_tokens,
    {
        proof {
            use_type_invariant(&*self);
        }
        let max = self.max_tokens;
        let rate = self.tokens_per_second;
        let (t0, last): (i64, u64) = match self.buckets.get(key) {
            Some(b) => *b,
            None => (max, now),
        };
        let elapsed: u64 = if now >= last {
            (now - last) / NANOS_PER_SEC
        } else {
            0
        };
        let (t1, l1): (i64, u64) = if elapsed > 0 {
            // `elapsed` is below 2^35, so the product fits in i128.
            assert(elapsed <= 0x8_0000_0000u64);
            assert(-0x10_0000_0000_0000_0000_0000_0000int <= (elapsed as i128) * (rate as i128)
                <= 0x10_0000_0000_0000_0000_0000_0000int) by (nonlinear_arith)
                requires
                    0 <= elapsed <= 0x8_0000_0000u64,
                    i64::MIN <= rate <= i64::MAX,
            ;
            let refill = (t0 as i128) + (elapsed as i128) * (rate as i128);
            if refill < max as i128 {
                if refill < i64::MIN as i128 {
                    (i64::MIN, now)
                } else {
                    (refill as i64, now)
                }
            } else {
                (max, now)
            }
        } else {
            (t0, last)
        };
        let (b, allowed): ((i64, u64), bool) = if t1 > 0 {
            ((t1 - 1, l1), true)
        } else {
            ((t1, l1), false)
        };
        let ghost old_buckets = self.buckets@;
        let mut buckets = StringHashMap::new();
        std::mem::swap(&mut buckets, &mut self.buckets);
        buckets.insert(String::from_str(key), b);
        proof {
            assert(buckets@.map_values(|x: (i64, u64)| (x.0 as int, x.1 as int)) =~= old_buckets.map_values(
                |x: (i64, u64)| (x.0 as int, x.1 as int),
            ).insert(key@, (b.0 as int, b.1 as int)));
        }
        self.buckets = buckets;
        allowed
    }
}

/// A client's first request finds a full bucket: it is let through when the
/// capacity is positive, and leaves one token fewer than the capacity.
pub proof fn lemma_first_request_finds_full_bucket(now: int, rate: int, max: int)
    ensures
        bucket_step(None, now, rate, max) == (if max > 0 {
            ((max - 1, now), true)
        } else {
            ((max, now), false)
        }),
{
}

/// Within a second of the last refill nothing is added: the request is let
/// through exactly when tokens are left, and takes one of them.
pub proof fn lemma_no_refill_within_a_second(t0: int, last: int, now: int, rate: int, max: int)
    requires
        now < last + NANOS_PER_SEC,
    ensures
        bucket_step(Some((t0, last)), now, rate, max) == (if t0 > 0 {
            ((t0 - 1, last), true)
        } else {
            ((t0, last), false)
        }),
{
    if now >= last {
        assert((now - last) / (NANOS_PER_SEC as int) == 0) by (nonlinear_arith)
            requires
                0 <= now - last < NANOS_PER_SEC as int,
        ;
    }
}

/// A refill adds to the tokens left: after `k >= 1` whole seconds the bucket
/// holds the tokens it had plus `k * rate`, capped at the capacity; the
/// request is let through exactly when that is positive, takes one token, and
/// the refill time becomes `now`. (A bucket drained below the range of `i64`
/// by a negative rate is left out.)
pub proof fn lemma_refill_adds_to_tokens_left(t0: int, last: int, now: int, rate: int, max: int, k: int)
    requires
        last <= now,
        k == (now - last) / (NANOS_PER_SEC as int),
        k >= 1,
        t0 + k * rate >= i64::MIN,
    ensures
        ({
            let filled = if t0 + k * rate < max {
                t0 + k * rate
            } else {
                max
            };
            bucket_step(Some((t0, last)), now, rate, max) == (if filled > 0 {
                ((filled - 1, now), true)
            } else {
                ((filled, now), false)
            })
        }),
{
}

/// The number of requests let through when a client sends `n` requests at
/// the same instant, starting from the bucket `b`.
pub open spec fn allowed_at_once(b: Option<(int, int)>, now: int, rate: int, max: int, n: nat) -> int
    decreases n,
{
    if n == 0 {
        0
    } else {
        let (next, allowed) = bucket_step(b, now, rate, max);
        (if allowed {
            1int
        } else {
            0int
        }) + allowed_at_once(Some(next), now, rate, max, (n - 1) as nat)
    }
}

/// Requests sent at one instant are let through at most up to the capacity:
/// a burst never gets more than `max_tokens` requests through.
pub proof fn lemma_burst_bounded(b: Option<(int, int)>, now: int, rate: int, max: int, n: nat)
    requires
        i64::MIN <= max,
        b matches Some(x) ==> x.0 <= max && x.1 <= now,
    ensures
        allowed_at_once(b, now, rate, max, n) <= (if max > 0 {
            max
        } else {
            0
        }),
    decreases n,
{
    if n > 0 {
        let (next, allowed) = bucket_step(b, now, rate, max);
        lemma_burst_step(b, now, rate, max);
        lemma_burst_same_instant(next, now, rate, max, (n - 1) as nat);
    }
}

/// One step keeps the bucket within capacity and records `now` or an
/// earlier refill time.
proof fn lemma_burst_step(b: Option<(int, int)>, now: int, rate: int, max: int)
    requires
        i64::MIN <= max,
        b matches Some(x) ==> x.0 <= max && x.1 <= now,
    ensures
        bucket_step(b, now, rate, max).0.0 <= max,
        bucket_step(b, now, rate, max).0.1 <= now,
        bucket_step(b, now, rate, max).1 ==> bucket_step(b, now, rate, max).0.0 + 1 <= max,
        bucket_step(b, now, rate, max).1 ==> bucket_step(b, now, rate, max).0.0 >= 0,
{
}

/// Once a bucket has been touched at `now`, further requests at `now` do not
/// refill it: each one let through takes a token, so at most the tokens left
/// get through.
proof fn lemma_burst_same_instant(b: (int, int), now: int, rate: int, max: int, n: nat)
    requires
        b.0 <= max,
        b.1 <= now,
        whole_seconds(b.1, now) == 0,
    ensures
        allowed_at_once(Some(b), now, rate, max, n) <= (if b.0 > 0 {
            b.0
        } else {
            0
        }),
    decreases n,
{
    if n > 0 {
        let (next, allowed) = bucket_step(Some(b), now, rate, max);
        assert(next.1 == b.1);
        lemma_burst_same_instant(next, now, rate, max, (n - 1) as nat);
    }
}

} // verus!
