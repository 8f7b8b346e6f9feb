//! The bounded retry policy of a single latency probe.
//!
//! One probe measures one (resolver method, domain) pair: up to
//! [`MAX_RETRIES`] independent attempts, keeping the fastest successful one,
//! and stopping early as soon as an attempt is at or under
//! [`RETRY_THRESHOLD`] milliseconds. The network attempt itself is outside
//! the library; callers feed each attempt's outcome into a [`RetryState`].

use vstd::prelude::*;
use vstd::string::StrSliceExecFns;
use vstd::string::StringExecFns;

verus! {

/// Maximum number of measurement attempts for one probe.
pub const MAX_RETRIES: u32 = 3;

/// Latency (milliseconds) at or under which an attempt is good enough and
/// retrying stops.
pub const RETRY_THRESHOLD: i64 = 500;

/// Per-attempt timeout in milliseconds; attempts that run longer fail.
pub const TIMEOUT_MILLIS: u64 = 3000;

/// The reserved latency value that denotes a failed measurement.
pub const FAILURE_SENTINEL: i64 = -1;

/// Outcome of one measurement attempt: the resolved address and the elapsed
/// time, or a failure carrying the sentinel latency and no address.
pub struct ProbeOutcome {
    pub resolved_address: Option<String>,
    pub elapsed_millis: i64,
    pub success: bool,
}

impl ProbeOutcome {
    /// The invariant of every outcome: failure, the sentinel latency and the
    /// absent address always coincide.
    pub open spec fn wf(self) -> bool {
        &&& self.success == (self.elapsed_millis != FAILURE_SENTINEL)
        &&& self.success == (self.resolved_address is Some)
        &&& self.elapsed_millis >= FAILURE_SENTINEL
    }

    /// A successful attempt: an address was obtained after a real duration.
    pub fn succeeded(resolved_address: String, elapsed_millis: i64) -> (r: ProbeOutcome)
        requires
            elapsed_millis >= 0,
        ensures
            r.wf(),
            r.success,
            r.elapsed_millis == elapsed_millis,
            r.resolved_address == Some(resolved_address),
    {
        ProbeOutcome { resolved_address: Some(resolved_address), elapsed_millis, success: true }
    }

    /// A failed attempt: timeout, connection error or empty answer.
    pub fn failed() -> (r: ProbeOutcome)
        ensures
            r.wf(),
            !r.success,
            r.elapsed_millis == FAILURE_SENTINEL,
            r.resolved_address is None,
    {
        ProbeOutcome { resolved_address: None, elapsed_millis: FAILURE_SENTINEL, success: false }
    }
}

/// The best outcome chosen across retries for one (method, domain) pair,
/// tagged with the domain it measured.
pub struct ProbeResult {
    pub domain: String,
    pub resolved_address: Option<String>,
    pub elapsed_millis: i64,
    pub success: bool,
}

impl ProbeResult {
    /// Same invariant as for a single outcome.
    pub open spec fn wf(self) -> bool {
        &&& self.success == (self.elapsed_millis != FAILURE_SENTINEL)
        &&& self.success == (self.resolved_address is Some)
        &&& self.elapsed_millis >= FAILURE_SENTINEL
    }
}

/// Law: in a well-formed probe result, failure, the sentinel latency and the
/// absent address are one and the same condition.
pub proof fn lemma_result_failure_forms(r: ProbeResult)
    requires
        r.wf(),
    ensures
        (!r.success <==> r.elapsed_millis == FAILURE_SENTINEL),
        (!r.success <==> r.resolved_address is None),
{
}

/// An attempt that ends the retry loop early: successful and at or under the
/// retry threshold.
pub open spec fn good_enough(a: ProbeOutcome) -> bool {
    a.success && a.elapsed_millis <= RETRY_THRESHOLD
}

/// The state of the retry loop of one probe: the best attempt seen so far and
/// how many attempts were made. The ghost history records every attempt fed
/// in, and pins the best fields as the earliest minimum-latency success.
pub struct RetryState {
    pub best_address: Option<String>,
    pub best_latency: i64,
    pub attempts_made: u32,
    pub history: Ghost<Seq<ProbeOutcome>>,
    pub best_at: Ghost<int>,
}

impl RetryState {
    /// The retry-loop invariant: the best fields hold the earliest successful
    /// attempt of minimal latency, or the failure sentinel when every attempt
    /// so far failed.
    pub open spec fn wf(self) -> bool {
        &&& self.attempts_made == self.history@.len()
        &&& self.attempts_made <= MAX_RETRIES
        &&& forall|j: int| 0 <= j < self.history@.len() ==> (#[trigger] self.history@[j]).wf()
        &&& self.best_latency >= FAILURE_SENTINEL
        &&& if self.best_latency == FAILURE_SENTINEL {
            &&& self.best_address is None
            &&& forall|j: int|
                0 <= j < self.history@.len() ==> !(#[trigger] self.history@[j]).success
        } else {
            &&& 0 <= self.best_at@ < self.history@.len()
            &&& self.history@[self.best_at@].success
            &&& self.history@[self.best_at@].elapsed_millis == self.best_latency
            &&& self.history@[self.best_at@].resolved_address == self.best_address
            &&& forall|j: int|
                0 <= j < self.history@.len() && (#[trigger] self.history@[j]).success
                    ==> self.best_latency <= self.history@[j].elapsed_millis
            &&& forall|j: int|
                0 <= j < self.best_at@ && (#[trigger] self.history@[j]).success
                    ==> self.best_latency < self.history@[j].elapsed_millis
        }
    }

    /// A fresh retry loop: nothing attempted, nothing found.
    pub fn new() -> (r: RetryState)
        ensures
            r.wf(),
            r.attempts_made == 0,
            r.history@ =~= Seq::<ProbeOutcome>::empty(),
            r.best_latency == FAILURE_SENTINEL,
            r.best_address is None,
    {
        RetryState {
            best_address: None,
            best_latency: FAILURE_SENTINEL,
            attempts_made: 0,
            history: Ghost(Seq::empty()),
            best_at: Ghost(0),
        }
    }

    /// Feeds one attempt's outcome into the loop. Returns whether the loop is
    /// done: either the attempt was good enough, or the retry budget is
    /// spent. This is the only way the state advances, so a probe makes at
    /// most [`MAX_RETRIES`] attempts and stops at the first attempt whose
    /// latency is at or under [`RETRY_THRESHOLD`].
    pub fn step(&mut self, attempt: &ProbeOutcome) -> (done: bool)
        requires
            old(self).wf(),
            attempt.wf(),
            old(self).attempts_made < MAX_RETRIES,
        ensures
            final(self).wf(),
            final(self).history@ == old(self).history@.push(*attempt),
            final(self).attempts_made == old(self).attempts_made + 1,
            done == (good_enough(*attempt) || final(self).attempts_made == MAX_RETRIES),
    {
        let lat = attempt.elapsed_millis;
        if lat != FAILURE_SENTINEL {
            if self.best_latency == FAILURE_SENTINEL || lat < self.best_latency {
                self.best_latency = lat;
                self.best_address = match &attempt.resolved_address {
                    Some(a) => Some(a.clone()),
                    None => None,
                };
                proof {
                    self.best_at@ = self.history@.len() as int;
                }
            }
        }
        self.attempts_made = self.attempts_made + 1;
        proof {
            self.history@ = self.history@.push(*attempt);
        }
        (lat != FAILURE_SENTINEL && lat <= RETRY_THRESHOLD) || self.attempts_made == MAX_RETRIES
    }

    /// The best outcome seen so far, as a standalone value.
    pub fn best_outcome(&self) -> (r: ProbeOutcome)
        requires
            self.wf(),
        ensures
            r.wf(),
            r.elapsed_millis == self.best_latency,
            r.resolved_address == self.best_address,
            r.success == (self.best_latency != FAILURE_SENTINEL),
            r.success == (exists|j: int|
                0 <= j < self.history@.len() && (#[trigger] self.history@[j]).success),
    {
        ProbeOutcome {
            resolved_address: match &self.best_address {
                Some(a) => Some(a.clone()),
                None => None,
            },
            elapsed_millis: self.best_latency,
            success: self.best_latency != FAILURE_SENTINEL,
        }
    }

    /// Closes the loop for one domain: the best outcome, tagged with the
    /// domain it measured.
    pub fn finish(&self, domain: String) -> (r: ProbeResult)
        requires
            self.wf(),
        ensures
            r.wf(),
            r.domain == domain,
            r.elapsed_millis == self.best_latency,
            r.resolved_address == self.best_address,
            r.success == (self.best_latency != FAILURE_SENTINEL),
    {
        ProbeResult {
            domain,
            resolved_address: match &self.best_address {
                Some(a) => Some(a.clone()),
                None => None,
            },
            elapsed_millis: self.best_latency,
            success: self.best_latency != FAILURE_SENTINEL,
        }
    }
}

/// Replays the retry policy over a list of attempt outcomes, as if they were
/// measured one by one. Returns the best outcome and how many attempts were
/// consumed: at most [`MAX_RETRIES`], stopping at the first good-enough
/// attempt, and the best outcome is the earliest success of minimal latency
/// among the consumed attempts.
pub fn measure_from_attempts(attempts: &Vec<ProbeOutcome>) -> (r: (ProbeOutcome, usize))
    requires
        forall|k: int| 0 <= k < attempts@.len() ==> (#[trigger] attempts@[k]).wf(),
    ensures
        r.0.wf(),
        r.1 <= attempts@.len(),
        r.1 <= MAX_RETRIES,
        forall|j: int| 0 <= j < r.1 - 1 ==> !good_enough(#[trigger] attempts@[j]),
        r.1 < attempts@.len() && r.1 < MAX_RETRIES ==> r.1 > 0 && good_enough(
            attempts@[r.1 - 1],
        ),
        r.0.success == (exists|j: int| 0 <= j < r.1 && (#[trigger] attempts@[j]).success),
        r.0.success ==> exists|j: int|
            {
                &&& 0 <= j < r.1
                &&& (#[trigger] attempts@[j]).success
                &&& attempts@[j].elapsed_millis == r.0.elapsed_millis
                &&& attempts@[j].resolved_address == r.0.resolved_address
                &&& forall|j2: int|
                    0 <= j2 < j && (#[trigger] attempts@[j2]).success
                        ==> attempts@[j2].elapsed_millis > r.0.elapsed_millis
            },
        r.0.success ==> forall|j: int|
            0 <= j < r.1 && (#[trigger] attempts@[j]).success ==> r.0.elapsed_millis
                <= attempts@[j].elapsed_millis,
{
    let mut st = RetryState::new();
    let mut done = false;
    let mut i: usize = 0;
    while i < attempts.len() && !done
        invariant
            forall|k: int| 0 <= k < attempts@.len() ==> (#[trigger] attempts@[k]).wf(),
            st.wf(),
            i <= attempts@.len(),
            st.attempts_made == i,
            st.history@ =~= attempts@.take(i as int),
            !done ==> i < MAX_RETRIES,
            !done ==> forall|j: int| 0 <= j < i ==> !good_enough(#[trigger] attempts@[j]),
            done ==> forall|j: int| 0 <= j < i - 1 ==> !good_enough(#[trigger] attempts@[j]),
            done ==> (i == MAX_RETRIES || (i > 0 && good_enough(attempts@[i - 1]))),
        decreases attempts@.len() - i,
    {
        let attempt = &attempts[i];
        done = st.step(attempt);
        i = i + 1;
        proof {
            assert(st.history@ =~= attempts@.take(i as int));
        }
    }
    let best = st.best_outcome();
    proof {
        let hist = st.history@;
        assert(hist =~= attempts@.take(i as int));
        assert forall|j: int| 0 <= j < i implies hist[j] == attempts@[j] by {
            assert(hist[j] == attempts@.take(i as int)[j]);
        }
        if best.success {
            let bi = st.best_at@;
            assert(hist[bi].success);
            assert(attempts@[bi].success && attempts@[bi].elapsed_millis == best.elapsed_millis
                && attempts@[bi].resolved_address == best.resolved_address);
            assert forall|j2: int|
                0 <= j2 < bi && (#[trigger] attempts@[j2]).success
                    implies attempts@[j2].elapsed_millis > best.elapsed_millis by {
                assert(hist[j2].success);
            }
            assert forall|j2: int|
                0 <= j2 < i && (#[trigger] attempts@[j2]).success implies best.elapsed_millis
                <= attempts@[j2].elapsed_millis by {
                assert(hist[j2].success);
            }
        } else {
            assert forall|j: int| 0 <= j < i implies !(#[trigger] attempts@[j]).success by {
                assert(attempts@[j] == hist[j]);
                assert(!hist[j].success);
            }
        }
    }
    (best, i)
}

/// Canonicalizes a domain for a plain DNS query: ensures exactly one trailing
/// dot separator.
pub fn canonical_domain(domain: &str) -> (r: String)
    ensures
        r@ == if domain@.len() > 0 && domain@.last() == '.' {
            domain@
        } else {
            domain@ + "."@
        },
        r@.len() > 0 && r@.last() == '.',
{
    proof {
        reveal_strlit(".");
    }
    let n = domain.unicode_len();
    if n > 0 && domain.get_char(n - 1) == '.' {
        String::from_str(domain)
    } else {
        let mut s = String::from_str(domain);
        s.append(".");
        s
    }
}

} // verus!
