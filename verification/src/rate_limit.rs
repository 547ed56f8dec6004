//! Per-client request throttling over an atomic counter held in the cache.
//!
//! Each request increments the counter of the client's current minute bucket
//! and resets its lifetime to sixty seconds in one atomic round trip; the
//! caller performs that round trip and hands the resulting count back. A count
//! above the fixed threshold rejects the request. Because the lifetime is
//! refreshed on every increment, the effective window slides with the most
//! recent request in the bucket rather than following calendar minutes.

use vstd::prelude::*;

use crate::error::{CustomError, CustomErrorV, CustomResult};
use crate::keys::{minute_of_epoch, rate_limit_bucket_key, spec_minute_of, spec_rate_limit_key};

verus! {

/// The most requests a client may make within one window.
pub const MAX_REQUESTS_PER_MINUTE: u64 = 10;

/// Decides whether a request is throttled. The counters themselves live in
/// the shared cache; the caller increments them atomically and feeds the
/// observed count to `assert_rate_limit_not_exceeded`.
#[derive(Clone, Copy)]
pub struct RateLimitService;

impl RateLimitService {
    /// A fresh throttling gate. The counters live with the caller's cache
    /// connection, so nothing is carried here.
    pub fn new() -> (service: Self) {
        RateLimitService
    }

    /// Key of the counter that `client` must increment at `now_epoch_seconds`.
    pub fn bucket_key(&self, client: &str, now_epoch_seconds: u64) -> (key: String)
        ensures
            key@ == spec_rate_limit_key(client@, spec_minute_of(now_epoch_seconds as nat)),
    {
        let minute = minute_of_epoch(now_epoch_seconds);
        rate_limit_bucket_key(client, minute)
    }

    /// Decides on `count`, the counter's value after this request's own
    /// increment: at most `MAX_REQUESTS_PER_MINUTE` passes; anything above is
    /// rejected carrying the observed count and the threshold.
    pub fn assert_rate_limit_not_exceeded(&self, count: u64) -> (r: CustomResult<()>)
        ensures
            r is Ok <==> count <= MAX_REQUESTS_PER_MINUTE,
            r is Err ==> r->Err_0@ == (CustomErrorV::TooManyRequests {
                actual: count as int,
                threshold: MAX_REQUESTS_PER_MINUTE as int,
            }),
    {
        if count > MAX_REQUESTS_PER_MINUTE {
            Err(
                CustomError::TooManyRequests {
                    actual_count: count,
                    permission_count: MAX_REQUESTS_PER_MINUTE,
                },
            )
        } else {
            Ok(())
        }
    }
}

/// Marker yielded to a request that passed the throttling gate.
pub struct RateLimit;

/// One client's rate counter as the cache holds it: the count, and the moment
/// the entry lapses.
pub ghost struct RateBucketV {
    pub count: nat,
    pub expires_at: int,
}

/// The counter after one atomic increment-and-refresh at `now`: a live bucket
/// carries its count on, a lapsed or absent one starts over at zero, and
/// either way the increment lands and the lifetime is reset to sixty seconds.
pub open spec fn spec_bucket_step(bucket: Option<RateBucketV>, now: int) -> RateBucketV {
    let carried: nat = match bucket {
        Some(b) => if now < b.expires_at {
            b.count
        } else {
            0
        },
        None => 0,
    };
    RateBucketV { count: carried + 1, expires_at: now + 60 }
}

/// The bucket of a client that started with no counter and made one request
/// at each moment of `times`, in order.
pub open spec fn spec_bucket_after(times: Seq<int>) -> Option<RateBucketV>
    decreases times.len(),
{
    if times.len() == 0 {
        None
    } else {
        Some(spec_bucket_step(spec_bucket_after(times.drop_last()), times.last()))
    }
}

/// Whether consecutive moments of `times` are in order and within one window
/// of each other, so that no counter lapses between them.
pub open spec fn spec_within_window(times: Seq<int>) -> bool {
    forall|i: int| 0 <= i < times.len() - 1 ==> #[trigger] times[i] <= times[i + 1] < times[i] + 60
}

/// A run of requests whose gaps stay under the window length counts exactly:
/// the i-th request observes the count i + 1.
pub proof fn lemma_window_counts(times: Seq<int>)
    requires
        times.len() > 0,
        spec_within_window(times),
    ensures
        spec_bucket_after(times) == Some(
            RateBucketV { count: times.len() as nat, expires_at: times.last() + 60 },
        ),
    decreases times.len(),
{
    let earlier = times.drop_last();
    if times.len() > 1 {
        assert(spec_within_window(earlier)) by {
            assert(forall|i: int|
                0 <= i < earlier.len() - 1 ==> #[trigger] earlier[i] == times[i] && earlier[i + 1]
                    == times[i + 1]);
        }
        lemma_window_counts(earlier);
        assert(times[times.len() - 2] <= times.last() < times[times.len() - 2] + 60);
        assert(earlier.last() == times[times.len() - 2]);
        assert(spec_bucket_after(times) == Some(
            spec_bucket_step(spec_bucket_after(earlier), times.last()),
        ));
    } else {
        assert(earlier.len() == 0);
        assert(spec_bucket_after(earlier) is None);
        assert(spec_bucket_after(times) == Some(
            spec_bucket_step(spec_bucket_after(earlier), times.last()),
        ));
    }
}

/// Within one window, a fresh client's first ten requests pass and the
/// eleventh is rejected with the observed count of eleven against the
/// threshold of ten: the decision on the i-th request of `times` depends on
/// the observed count i + 1 alone.
pub proof fn lemma_rate_limit_window(times: Seq<int>, i: int)
    requires
        spec_within_window(times),
        0 <= i < times.len(),
    ensures
        spec_bucket_after(times.take(i + 1)) == Some(
            RateBucketV { count: (i + 1) as nat, expires_at: times[i] + 60 },
        ),
        i < 10 ==> spec_bucket_after(times.take(i + 1))->Some_0.count <= MAX_REQUESTS_PER_MINUTE,
        i >= 10 ==> spec_bucket_after(times.take(i + 1))->Some_0.count > MAX_REQUESTS_PER_MINUTE,
{
    let prefix = times.take(i + 1);
    assert(spec_within_window(prefix)) by {
        assert(forall|j: int|
            0 <= j < prefix.len() - 1 ==> #[trigger] prefix[j] == times[j] && prefix[j + 1]
                == times[j + 1]);
    }
    lemma_window_counts(prefix);
}

/// Once a bucket's lifetime has elapsed with no further request, its count is
/// gone: the next request starts the window over at an observed count of one.
pub proof fn lemma_bucket_lapses(bucket: RateBucketV, now: int)
    requires
        now >= bucket.expires_at,
    ensures
        spec_bucket_step(Some(bucket), now) == (RateBucketV { count: 1, expires_at: now + 60 }),
{
}

} // verus!
