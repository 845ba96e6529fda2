//! Token buckets for ACK decimation.
//!
//! A bucket holds at most five hundred tokens and refills at five hundred
//! tokens per second — one token every two million nanoseconds — with no
//! burst beyond capacity.  The bank keeps sixteen independent buckets,
//! indexed by a flow key, and lives for the whole relay, not per packet.

use vstd::prelude::*;
use vstd::pervasive::VecAdditionalExecFns;

verus! {

/// Greatest number of tokens a bucket holds, and the per-second refill.
pub const BUCKET_CAPACITY: u32 = 500;

/// Nanoseconds per regained token: one second divided by the refill rate.
pub const NANOS_PER_TOKEN: u64 = 2000000;

/// Number of independent buckets in the bank.
pub const BUCKET_COUNT: usize = 16;

/// One token bucket: its current tokens and the instant, in nanoseconds of
/// a monotone clock, up to which refill credit has already been granted.
#[derive(Clone, Copy)]
pub struct RateBucket {
    pub tokens: u32,
    pub refilled_to_ns: u64,
}

/// A bucket never holds more than its capacity.
pub open spec fn bucket_wf(b: RateBucket) -> bool {
    b.tokens <= BUCKET_CAPACITY
}

/// The bucket after granting the refill earned by the clock reaching
/// `now_ns`: whole tokens only, capped at capacity; credit for a fraction
/// of a token stays in the bucket's timestamp.
pub open spec fn refilled(b: RateBucket, now_ns: u64) -> RateBucket {
    if now_ns <= b.refilled_to_ns {
        b
    } else {
        let gained = (now_ns - b.refilled_to_ns) / (NANOS_PER_TOKEN as int);
        if b.tokens + gained >= BUCKET_CAPACITY {
            RateBucket { tokens: BUCKET_CAPACITY, refilled_to_ns: now_ns }
        } else {
            RateBucket {
                tokens: (b.tokens + gained) as u32,
                refilled_to_ns: (b.refilled_to_ns + gained * NANOS_PER_TOKEN) as u64,
            }
        }
    }
}

/// What one `check` call does: refill, then spend one token if any is
/// left.  The boolean says whether a token was granted.
pub open spec fn check_result(b: RateBucket, now_ns: u64) -> (RateBucket, bool) {
    let r = refilled(b, now_ns);
    if r.tokens > 0 {
        (RateBucket { tokens: (r.tokens - 1) as u32, refilled_to_ns: r.refilled_to_ns }, true)
    } else {
        (r, false)
    }
}

impl RateBucket {
    /// A fresh, full bucket whose refill clock starts at `now_ns`.
    pub fn new(now_ns: u64) -> (r: RateBucket)
        ensures
            r.tokens == BUCKET_CAPACITY,
            r.refilled_to_ns == now_ns,
            bucket_wf(r),
    {
        RateBucket { tokens: BUCKET_CAPACITY, refilled_to_ns: now_ns }
    }

    /// Refills the bucket up to `now_ns`, then takes one token if one is
    /// available.  Returns whether a token was granted.
    pub fn check(&mut self, now_ns: u64) -> (granted: bool)
        requires
            bucket_wf(*old(self)),
        ensures
            bucket_wf(*final(self)),
            *final(self) == check_result(*old(self), now_ns).0,
            granted == check_result(*old(self), now_ns).1,
    {
        if now_ns > self.refilled_to_ns {
            let delta: u64 = now_ns - self.refilled_to_ns;
            let gained: u64 = delta / NANOS_PER_TOKEN;
            if gained >= (BUCKET_CAPACITY - self.tokens) as u64 {
                self.tokens = BUCKET_CAPACITY;
                self.refilled_to_ns = now_ns;
            } else {
                assert(gained * NANOS_PER_TOKEN <= delta) by (nonlinear_arith)
                    requires gained == delta / NANOS_PER_TOKEN && NANOS_PER_TOKEN == 2000000u64;
                self.tokens = self.tokens + (gained as u32);
                self.refilled_to_ns = self.refilled_to_ns + gained * NANOS_PER_TOKEN;
            }
        }
        if self.tokens > 0 {
            self.tokens = self.tokens - 1;
            true
        } else {
            false
        }
    }
}

/// How many checks of the sequence of instants `times` are granted a
/// token, starting from bucket `b`.
pub open spec fn granted_count(b: RateBucket, times: Seq<u64>) -> nat
    decreases times.len(),
{
    if times.len() == 0 {
        0
    } else {
        let step = check_result(b, times[0]);
        (if step.1 { 1nat } else { 0nat }) + granted_count(step.0, times.drop_first())
    }
}

/// Refilling never overfills: the result of a refill on a well-formed
/// bucket is well-formed, and its timestamp never runs ahead of the clock
/// it was refilled to.
pub proof fn lemma_refilled_wf(b: RateBucket, now_ns: u64)
    requires
        bucket_wf(b),
    ensures
        bucket_wf(refilled(b, now_ns)),
        refilled(b, now_ns).refilled_to_ns <= if now_ns <= b.refilled_to_ns { b.refilled_to_ns } else { now_ns },
{
    if now_ns > b.refilled_to_ns {
        let gained = (now_ns - b.refilled_to_ns) / (NANOS_PER_TOKEN as int);
        assert(gained * NANOS_PER_TOKEN <= now_ns - b.refilled_to_ns) by (nonlinear_arith)
            requires gained == (now_ns - b.refilled_to_ns) / (NANOS_PER_TOKEN as int) && NANOS_PER_TOKEN == 2000000u64 && now_ns > b.refilled_to_ns;
    }
}

/// A burst at one instant is bounded by what the bucket holds at that
/// instant: however many plain acknowledgments arrive at time `t`, at most
/// `refilled(b, t).tokens` of them — never more than the capacity — are
/// granted a token.
pub proof fn lemma_burst_bounded(b: RateBucket, times: Seq<u64>, t: u64)
    requires
        bucket_wf(b),
        forall|i: int| 0 <= i < times.len() ==> times[i] == t,
    ensures
        granted_count(b, times) <= refilled(b, t).tokens,
        granted_count(b, times) <= BUCKET_CAPACITY,
    decreases times.len(),
{
    lemma_refilled_wf(b, t);
    if times.len() > 0 {
        let step = check_result(b, t);
        let b2 = step.0;
        assert(bucket_wf(b2));
        // After one refill to t, a second refill at the same t grants
        // nothing: less than one token's worth of credit remains.
        let r = refilled(b, t);
        if t > b.refilled_to_ns && !(b.tokens + (t - b.refilled_to_ns) / (NANOS_PER_TOKEN as int) >= BUCKET_CAPACITY) {
            let gained = (t - b.refilled_to_ns) / (NANOS_PER_TOKEN as int);
            assert((t - b.refilled_to_ns) - gained * NANOS_PER_TOKEN < NANOS_PER_TOKEN) by (nonlinear_arith)
                requires gained == (t - b.refilled_to_ns) / (NANOS_PER_TOKEN as int) && NANOS_PER_TOKEN == 2000000u64 && t > b.refilled_to_ns;
            assert((t - r.refilled_to_ns) / (NANOS_PER_TOKEN as int) == 0) by (nonlinear_arith)
                requires 0 <= t - r.refilled_to_ns < NANOS_PER_TOKEN && NANOS_PER_TOKEN == 2000000u64;
        }
        assert(refilled(b2, t).tokens == b2.tokens);
        lemma_burst_bounded(b2, times.drop_first(), t);
    }
}

/// The bank of buckets used by the upstream relay direction: sixteen
/// independent buckets picked by flow key.
pub struct RateBank {
    pub buckets: Vec<RateBucket>,
}

/// The bank holds exactly its sixteen buckets, each well-formed.
pub open spec fn bank_wf(bank: RateBank) -> bool {
    &&& bank.buckets@.len() == BUCKET_COUNT
    &&& forall|i: int| 0 <= i < bank.buckets@.len() ==> bucket_wf(#[trigger] bank.buckets@[i])
}

/// The bucket index a flow key selects.
pub open spec fn bucket_index_of(key: u16) -> int {
    key as int % (BUCKET_COUNT as int)
}

impl RateBank {
    /// A bank of sixteen full buckets whose refill clocks start at `now_ns`.
    pub fn new(now_ns: u64) -> (r: RateBank)
        ensures
            bank_wf(r),
            forall|i: int| 0 <= i < BUCKET_COUNT ==> (#[trigger] r.buckets@[i]).tokens == BUCKET_CAPACITY
                && r.buckets@[i].refilled_to_ns == now_ns,
    {
        let mut buckets: Vec<RateBucket> = Vec::new();
        let mut i: usize = 0;
        while i < BUCKET_COUNT
            invariant
                i <= BUCKET_COUNT,
                buckets@.len() == i,
                forall|j: int| 0 <= j < i as int ==> (#[trigger] buckets@[j]).tokens == BUCKET_CAPACITY
                    && buckets@[j].refilled_to_ns == now_ns,
            decreases BUCKET_COUNT - i,
        {
            buckets.push(RateBucket::new(now_ns));
            i = i + 1;
        }
        RateBank { buckets }
    }

    /// Consults the bucket the key selects: refill, then spend one token
    /// if available.  Every other bucket is left untouched.
    pub fn check(&mut self, key: u16, now_ns: u64) -> (granted: bool)
        requires
            bank_wf(*old(self)),
        ensures
            bank_wf(*final(self)),
            final(self).buckets@.len() == old(self).buckets@.len(),
            final(self).buckets@[bucket_index_of(key)]
                == check_result(old(self).buckets@[bucket_index_of(key)], now_ns).0,
            granted == check_result(old(self).buckets@[bucket_index_of(key)], now_ns).1,
            forall|i: int| 0 <= i < old(self).buckets@.len() && i != bucket_index_of(key)
                ==> final(self).buckets@[i] == old(self).buckets@[i],
    {
        let idx: usize = (key as usize) % BUCKET_COUNT;
        let mut bucket = self.buckets[idx];
        let granted = bucket.check(now_ns);
        self.buckets.set(idx, bucket);
        granted
    }
}

} // verus!
