use vstd::string::StringSliceAdditionalSpecFns;
use vstd::prelude::*;

verus! {

/// Delay between two calls, in milliseconds, for an endpoint with no delay of
/// its own.
pub const DEFAULT_RPC_DELAY_MS: u32 = 200;

/// Delay between two calls, in milliseconds, for the endpoint
/// `https://ssc-dao.genesysgo.net`.
pub const GENESYSGO_RPC_DELAY_MS: u32 = 25;

/// Nanoseconds in a millisecond.
pub const NANOS_PER_MILLI: u64 = 1_000_000;

pub open spec fn genesysgo_url() -> Seq<char> {
    "https://ssc-dao.genesysgo.net"@
}

/// The delay, in milliseconds, that calls to `url` keep between them.
pub open spec fn rpc_delay(url: Seq<char>) -> u32 {
    if url == genesysgo_url() {
        GENESYSGO_RPC_DELAY_MS
    } else {
        DEFAULT_RPC_DELAY_MS
    }
}

fn same_bytes(a: &[u8], b: &[u8]) -> (r: bool)
    ensures
        r == (a@ == b@),
{
    if a.len() != b.len() {
        return false;
    }
    let mut i: usize = 0;
    while i < a.len()
        invariant
            i <= a@.len(),
            a@.len() == b@.len(),
            forall|j: int| 0 <= j < i ==> a@[j] == b@[j],
        decreases a@.len() - i,
    {
        if a[i] != b[i] {
            return false;
        }
        i = i + 1;
    }
    assert(a@ =~= b@);
    true
}

/// The delay, in milliseconds, that calls to the endpoint `url` keep between
/// them: a few endpoints have their own, the others the default.
pub fn rpc_delay_ms(url: &str) -> (r: u32)
    ensures
        r == rpc_delay(url@),
{
    let known: &str = "https://ssc-dao.genesysgo.net";
    let equal = same_bytes(url.as_bytes(), known.as_bytes());
    proof {
        broadcast use vstd::utf8::encode_utf8_decode_utf8;

        assert(vstd::utf8::decode_utf8(url.spec_bytes()) == url@);
        assert(vstd::utf8::decode_utf8(known.spec_bytes()) == known@);
    }
    if equal {
        GENESYSGO_RPC_DELAY_MS
    } else {
        DEFAULT_RPC_DELAY_MS
    }
}

/// Spaces permits to call out at least `delay_ns` apart. Times are in
/// nanoseconds on one monotonic clock.
#[derive(Debug, Clone, Copy)]
pub struct RateLimiter {
    pub delay_ns: u64,
    /// The time of the last permit handed out, if any.
    pub last: Option<u64>,
}

impl RateLimiter {
    /// The earliest time at which the next permit may be used.
    pub open spec fn next_free(self, now: u64) -> int {
        match self.last {
            Some(l) => if now >= l + self.delay_ns {
                now as int
            } else {
                l + self.delay_ns
            },
            None => now as int,
        }
    }

    /// A limiter that has handed out no permit yet.
    pub fn new(delay_ns: u64) -> (r: RateLimiter)
        ensures
            r.delay_ns == delay_ns,
            r.last is None,
    {
        RateLimiter { delay_ns, last: None }
    }

    /// A limiter whose permits are the delay of the endpoint `url` apart.
    pub fn for_endpoint(url: &str) -> (r: RateLimiter)
        ensures
            r.delay_ns == rpc_delay(url@) * NANOS_PER_MILLI,
            r.last is None,
    {
        let ms = rpc_delay_ms(url);
        RateLimiter::new(ms as u64 * NANOS_PER_MILLI)
    }

    /// Hands out a permit to a caller that asks at time `now`. The permit's
    /// time is returned: the caller waits until then before its call.
    pub fn acquire(&mut self, now: u64) -> (grant: u64)
        requires
            old(self).next_free(now) <= u64::MAX,
        ensures
            grant == old(self).next_free(now),
            grant >= now,
            old(self).last matches Some(l) ==> grant >= l + old(self).delay_ns,
            final(self).last == Some(grant),
            final(self).delay_ns == old(self).delay_ns,
    {
        let grant = match self.last {
            Some(l) => if now >= l + self.delay_ns {
                now
            } else {
                l + self.delay_ns
            },
            None => now,
        };
        self.last = Some(grant);
        grant
    }
}

/// Permits handed out one after the other by a limiter are each at least the
/// delay after the one before; then any two of them are at least the delay
/// apart.
pub proof fn lemma_permits_spaced(grants: Seq<u64>, delay_ns: u64)
    requires
        forall|i: int| 0 < i < grants.len() ==> #[trigger] grants[i] >= grants[i - 1] + delay_ns,
    ensures
        forall|i: int, j: int|
            0 <= i < j < grants.len() ==> #[trigger] grants[j] >= #[trigger] grants[i] + delay_ns,
{
    assert forall|i: int, j: int| 0 <= i < j < grants.len() implies #[trigger] grants[j]
        >= #[trigger] grants[i] + delay_ns by {
        lemma_permits_after(grants, delay_ns, i, j);
    }
}

proof fn lemma_permits_after(grants: Seq<u64>, delay_ns: u64, i: int, j: int)
    requires
        forall|k: int| 0 < k < grants.len() ==> #[trigger] grants[k] >= grants[k - 1] + delay_ns,
        0 <= i < j < grants.len(),
    ensures
        grants[j] >= grants[i] + delay_ns,
    decreases j - i,
{
    if j > i + 1 {
        lemma_permits_after(grants, delay_ns, i, j - 1);
    }
}

} // verus!
