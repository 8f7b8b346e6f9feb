//! Aggregation of a sweep's probe results: one summary row per method, in
//! the order the methods were enumerated, and the matrix cells of the
//! tabular export in canonical domain order.

use vstd::prelude::*;
use crate::probe::{FAILURE_SENTINEL, ProbeResult};
use crate::schedule::TestResult;

verus! {

/// How many results of a row are successes.
pub open spec fn count_successes(s: Seq<ProbeResult>) -> int
    decreases s.len(),
{
    if s.len() == 0 {
        0
    } else {
        count_successes(s.drop_last()) + if s.last().success {
            1int
        } else {
            0int
        }
    }
}

/// The sum of the latencies of a row's successful results.
pub open spec fn total_success_latency(s: Seq<ProbeResult>) -> int
    decreases s.len(),
{
    if s.len() == 0 {
        0
    } else {
        total_success_latency(s.drop_last()) + if s.last().success {
            s.last().elapsed_millis as int
        } else {
            0int
        }
    }
}

/// The summary row of one method: its identity, the latency statistics over
/// its successful probes, the failure count, and the full ordered result row
/// needed to rebuild the matrix. When no probe succeeded, the statistics are
/// unavailable: the counters are zero and the min/max carry the sentinel.
pub struct ResolverSummary {
    pub method_index: usize,
    pub dns_name: String,
    pub method: String,
    pub address: String,
    pub success_count: usize,
    pub total_latency: i128,
    pub max_latency: i64,
    pub min_latency: i64,
    pub failures: usize,
    pub results: Vec<ProbeResult>,
}

/// What it means for a summary row to summarize one method's results.
/// Opaque to keep the quantifiers inside it out of unrelated proofs; reveal
/// it where its parts are needed.
#[verifier::opaque]
pub open spec fn summarizes(s: ResolverSummary, t: TestResult) -> bool {
    &&& s.method_index == t.method_index
    &&& s.dns_name == t.dns_name
    &&& s.method == t.method
    &&& s.address == t.address
    &&& s.results == t.results
    &&& s.success_count == count_successes(t.results@)
    &&& s.failures + s.success_count == t.results@.len()
    &&& s.total_latency == total_success_latency(t.results@)
    &&& (s.success_count == 0 ==> s.max_latency == FAILURE_SENTINEL && s.min_latency
        == FAILURE_SENTINEL)
    &&& (s.success_count > 0 ==> exists|k: int|
        0 <= k < t.results@.len() && (#[trigger] t.results@[k]).success && t.results@[k].elapsed_millis
            == s.max_latency)
    &&& (s.success_count > 0 ==> exists|k: int|
        0 <= k < t.results@.len() && (#[trigger] t.results@[k]).success && t.results@[k].elapsed_millis
            == s.min_latency)
    &&& forall|k: int|
        0 <= k < t.results@.len() && (#[trigger] t.results@[k]).success ==> s.min_latency
            <= t.results@[k].elapsed_millis <= s.max_latency
}

/// Builds the summary row of one method from its completed result row.
pub fn summarize_one(t: TestResult) -> (s: ResolverSummary)
    requires
        t.wf(),
    ensures
        summarizes(s, t),
{
    proof {
        reveal(summarizes);
    }
    let n = t.results.len();
    let mut success_count: usize = 0;
    let mut total: i128 = 0;
    let mut max_lat: i64 = FAILURE_SENTINEL;
    let mut min_lat: i64 = FAILURE_SENTINEL;
    let ghost mut max_at: int = 0;
    let ghost mut min_at: int = 0;
    for k in 0..n
        invariant
            n == t.results@.len(),
            t.wf(),
            success_count == count_successes(t.results@.take(k as int)),
            success_count <= k,
            total == total_success_latency(t.results@.take(k as int)),
            0 <= total <= k * (i64::MAX as int),
            success_count == 0 ==> max_lat == FAILURE_SENTINEL && min_lat == FAILURE_SENTINEL,
            success_count > 0 ==> 0 <= max_at < k && t.results@[max_at].success
                && t.results@[max_at].elapsed_millis == max_lat,
            success_count > 0 ==> 0 <= min_at < k && t.results@[min_at].success
                && t.results@[min_at].elapsed_millis == min_lat,
            forall|j: int|
                0 <= j < k && (#[trigger] t.results@[j]).success ==> min_lat
                    <= t.results@[j].elapsed_millis <= max_lat,
    {
        proof {
            assert(t.results@.take(k + 1).drop_last() =~= t.results@.take(k as int));
            assert(t.results@.take(k + 1).last() == t.results@[k as int]);
        }
        let pr = &t.results[k];
        if pr.success {
            if success_count == 0 {
                max_lat = pr.elapsed_millis;
                min_lat = pr.elapsed_millis;
                proof {
                    max_at = k as int;
                    min_at = k as int;
                }
            } else {
                if pr.elapsed_millis > max_lat {
                    max_lat = pr.elapsed_millis;
                    proof {
                        max_at = k as int;
                    }
                }
                if pr.elapsed_millis < min_lat {
                    min_lat = pr.elapsed_millis;
                    proof {
                        min_at = k as int;
                    }
                }
            }
            success_count = success_count + 1;
            proof {
                assert(total + pr.elapsed_millis as int <= (k + 1) * (i64::MAX as int));
                assert((k + 1) * (i64::MAX as int) <= (usize::MAX as int + 1) * (
                i64::MAX as int));
            }
            total = total + pr.elapsed_millis as i128;
        }
    }
    proof {
        assert(t.results@.take(n as int) =~= t.results@);
    }
    let failures = n - success_count;
    let TestResult { method_index, dns_name, method, address, results } = t;
    ResolverSummary {
        method_index,
        dns_name,
        method,
        address,
        success_count,
        total_latency: total,
        max_latency: max_lat,
        min_latency: min_lat,
        failures,
        results,
    }
}

/// Whether a summary row summarizes one of the given method rows.
pub open spec fn summarizes_some(s: ResolverSummary, rows: Seq<TestResult>) -> bool {
    exists|j: int| 0 <= j < rows.len() && #[trigger] summarizes(s, rows[j])
}

/// Whether some summary row carries the given method index.
pub open spec fn index_represented(r: Seq<ResolverSummary>, m: usize) -> bool {
    exists|a: int| 0 <= a < r.len() && (#[trigger] r[a]).method_index == m
}

/// Builds the summary rows of a whole sweep, one per method, ordered by the
/// methods' original enumeration order — whatever order the rows completed
/// in.
#[verifier::rlimit(100)]
pub fn summarize(results: Vec<TestResult>) -> (r: Vec<ResolverSummary>)
    requires
        forall|j: int| 0 <= j < results@.len() ==> (#[trigger] results@[j]).wf(),
        forall|j1: int, j2: int|
            0 <= j1 < j2 < results@.len() ==> results@[j1].method_index
                != results@[j2].method_index,
    ensures
        r@.len() == results@.len(),
        forall|a: int, b: int| 0 <= a < b < r@.len() ==> r@[a].method_index < r@[b].method_index,
        forall|a: int| 0 <= a < r@.len() ==> summarizes_some(#[trigger] r@[a], results@),
        forall|j: int|
            0 <= j < results@.len() ==> index_represented(
                r@,
                (#[trigger] results@[j]).method_index,
            ),
{
    let ghost orig = results@;
    let mut rem = results;
    let mut out: Vec<ResolverSummary> = Vec::new();
    // Ghost maps tying rows to their original positions: src[i] is the
    // origin of rem[i], osrc[a] the origin of out[a], and loc[j] says where
    // orig[j] currently stands: position loc[j] of rem when nonnegative,
    // position -loc[j] - 1 of out otherwise.
    let ghost mut src: Seq<int> = Seq::new(orig.len(), |j: int| j);
    let ghost mut osrc: Seq<int> = Seq::empty();
    let ghost mut loc: Seq<int> = Seq::new(orig.len(), |j: int| j);
    while rem.len() > 0
        invariant
            out@.len() + rem@.len() == orig.len(),
            forall|i: int| 0 <= i < rem@.len() ==> (#[trigger] rem@[i]).wf(),
            forall|i1: int, i2: int|
                0 <= i1 < i2 < rem@.len() ==> rem@[i1].method_index != rem@[i2].method_index,
            src.len() == rem@.len(),
            forall|i: int|
                0 <= i < src.len() ==> 0 <= #[trigger] src[i] < orig.len() && rem@[i]
                    == orig[src[i]],
            osrc.len() == out@.len(),
            forall|a: int|
                0 <= a < osrc.len() ==> 0 <= #[trigger] osrc[a] < orig.len() && summarizes(
                    out@[a],
                    orig[osrc[a]],
                ),
            loc.len() == orig.len(),
            forall|j: int|
                0 <= j < loc.len() ==> {
                    let l = #[trigger] loc[j];
                    (0 <= l < rem@.len() && src[l] == j) || (-(out@.len() as int) <= l <= -1
                        && osrc[-l - 1] == j)
                },
            forall|a: int, b: int|
                0 <= a < b < out@.len() ==> out@[a].method_index < out@[b].method_index,
            forall|a: int, i: int| #![trigger out@[a], rem@[i]]
                0 <= a < out@.len() && 0 <= i < rem@.len() ==> out@[a].method_index
                    < rem@[i].method_index,
        decreases rem@.len(),
    {
        let mut min_pos: usize = 0;
        let mut p: usize = 1;
        while p < rem.len()
            invariant
                1 <= p <= rem@.len(),
                min_pos < p,
                forall|q: int|
                    0 <= q < p ==> rem@[min_pos as int].method_index <= (
                    #[trigger] rem@[q]).method_index,
            decreases rem@.len() - p,
        {
            if rem[p].method_index < rem[min_pos].method_index {
                min_pos = p;
            }
            p = p + 1;
        }
        let ghost old_rem = rem@;
        let ghost old_out = out@;
        let ghost j0 = src[min_pos as int];
        let t = rem.remove(min_pos);
        let s = summarize_one(t);
        out.push(s);
        proof {
            old_rem.remove_ensures(min_pos as int);
            assert(t == old_rem[min_pos as int]);
            assert(t == orig[j0]);
            assert(summarizes(s, orig[j0]));
            assert(s.method_index == t.method_index) by {
                reveal(summarizes);
            }
            let old_src = src;
            let old_osrc = osrc;
            let old_loc = loc;
            src = src.remove(min_pos as int);
            osrc = osrc.push(j0);
            loc = Seq::new(
                old_loc.len(),
                |j: int|
                    if old_loc[j] > min_pos {
                        old_loc[j] - 1
                    } else if old_loc[j] == min_pos {
                        -(old_out.len() as int) - 1
                    } else {
                        old_loc[j]
                    },
            );
            old_src.remove_ensures(min_pos as int);
            assert forall|i: int| 0 <= i < rem@.len() implies (#[trigger] rem@[i]).wf() by {
                if i < min_pos {
                    assert(rem@[i] == old_rem[i]);
                } else {
                    assert(rem@[i] == old_rem[i + 1]);
                }
            }
            assert forall|i1: int, i2: int| 0 <= i1 < i2 < rem@.len() implies rem@[i1].method_index
                != rem@[i2].method_index by {
                if i1 < min_pos {
                    assert(rem@[i1] == old_rem[i1]);
                } else {
                    assert(rem@[i1] == old_rem[i1 + 1]);
                }
                if i2 < min_pos {
                    assert(rem@[i2] == old_rem[i2]);
                } else {
                    assert(rem@[i2] == old_rem[i2 + 1]);
                }
            }
            assert forall|i: int| 0 <= i < src.len() implies 0 <= #[trigger] src[i] < orig.len()
                && rem@[i] == orig[src[i]] by {
                if i < min_pos {
                    assert(src[i] == old_src[i]);
                    assert(rem@[i] == old_rem[i]);
                } else {
                    assert(src[i] == old_src[i + 1]);
                    assert(rem@[i] == old_rem[i + 1]);
                }
            }
            assert forall|a: int| 0 <= a < osrc.len() implies 0 <= #[trigger] osrc[a] < orig.len()
                && summarizes(out@[a], orig[osrc[a]]) by {
                if a < old_osrc.len() {
                    assert(osrc[a] == old_osrc[a]);
                    assert(out@[a] == old_out[a]);
                } else {
                    assert(osrc[a] == j0);
                    assert(out@[a] == s);
                }
            }
            assert forall|j: int| 0 <= j < loc.len() implies {
                let l = #[trigger] loc[j];
                (0 <= l < rem@.len() && src[l] == j) || (-(out@.len() as int) <= l <= -1 && osrc[-l
                    - 1] == j)
            } by {
                let l0 = old_loc[j];
                if 0 <= l0 < old_rem.len() && old_src[l0] == j {
                    if l0 > min_pos {
                        assert(loc[j] == l0 - 1);
                        assert(src[l0 - 1] == old_src[l0]);
                    } else if l0 == min_pos {
                        assert(j == j0);
                        assert(loc[j] == -(old_out.len() as int) - 1);
                        assert(osrc[old_out.len() as int] == j0);
                    } else {
                        assert(loc[j] == l0);
                        assert(src[l0] == old_src[l0]);
                    }
                } else {
                    assert(-(old_out.len() as int) <= l0 <= -1 && old_osrc[-l0 - 1] == j);
                    assert(loc[j] == l0);
                    assert(osrc[-l0 - 1] == old_osrc[-l0 - 1]);
                }
            }
            // The emitted row's index is the minimum of what remained, so it is
            // above everything emitted before and below everything remaining.
            assert forall|a: int, i: int| #![trigger out@[a], rem@[i]]
                0 <= a < out@.len() && 0 <= i < rem@.len() implies out@[a].method_index
                < rem@[i].method_index by {
                let shifted = if i < min_pos {
                    i
                } else {
                    i + 1
                };
                assert(rem@[i] == old_rem[shifted]);
                if a < old_out.len() {
                    assert(out@[a] == old_out[a]);
                } else {
                    assert(out@[a] == s);
                    assert(old_rem[min_pos as int].method_index <= old_rem[shifted].method_index);
                    if shifted < min_pos {
                        assert(old_rem[shifted].method_index != old_rem[min_pos as int].method_index);
                    } else {
                        assert(old_rem[min_pos as int].method_index != old_rem[shifted].method_index);
                    }
                }
            }
            assert forall|a: int, b: int| 0 <= a < b < out@.len() implies out@[a].method_index
                < out@[b].method_index by {
                if b < old_out.len() {
                } else {
                    assert(out@[b] == s);
                    assert(out@[a] == old_out[a]);
                    assert(old_out[a].method_index < old_rem[min_pos as int].method_index);
                }
            }
        }
    }
    proof {
        assert forall|a: int| 0 <= a < out@.len() implies summarizes_some(
            #[trigger] out@[a],
            orig,
        ) by {
            assert(summarizes(out@[a], orig[osrc[a]]));
        }
        assert forall|j: int| 0 <= j < orig.len() implies index_represented(
            out@,
            (#[trigger] orig[j]).method_index,
        ) by {
            let l = loc[j];
            assert(osrc[-l - 1] == j);
            let a = -l - 1;
            assert(summarizes(out@[a], orig[j]));
            assert(out@[a].method_index == orig[j].method_index) by {
                reveal(summarizes);
            }
        }
    }
    out
}

/// The first result of a row that measured the given domain.
pub open spec fn first_result_for(results: Seq<ProbeResult>, site: Seq<char>) -> Option<ProbeResult>
    decreases results.len(),
{
    if results.len() == 0 {
        None
    } else if results[0].domain@ == site {
        Some(results[0])
    } else {
        first_result_for(results.drop_first(), site)
    }
}

/// One cell pair of the tabular export: the resolved address and the latency
/// reported for one (method, domain) pair, or the sentinels when the sweep
/// holds no result for the pair.
pub struct MatrixCell {
    pub resolved_address: Option<String>,
    pub elapsed_millis: i64,
}

/// Builds one method's matrix row: one cell per domain of the canonical
/// list, in that order, taken from the row's first result for the domain,
/// with sentinel values for a missing pair.
pub fn row_cells(results: &Vec<ProbeResult>, sites: &Vec<String>) -> (r: Vec<MatrixCell>)
    ensures
        r@.len() == sites@.len(),
        forall|k: int|
            0 <= k < sites@.len() ==> match first_result_for(results@, sites@[k]@) {
                Some(p) => (#[trigger] r@[k]).resolved_address == p.resolved_address && r@[
                    k
                ].elapsed_millis == p.elapsed_millis,
                None => r@[k].resolved_address is None && r@[k].elapsed_millis
                    == FAILURE_SENTINEL,
            },
{
    let mut r: Vec<MatrixCell> = Vec::new();
    for k in 0..sites.len()
        invariant
            r@.len() == k,
            forall|k2: int|
                0 <= k2 < k ==> match first_result_for(results@, sites@[k2]@) {
                    Some(p) => (#[trigger] r@[k2]).resolved_address == p.resolved_address && r@[
                        k2
                    ].elapsed_millis == p.elapsed_millis,
                    None => r@[k2].resolved_address is None && r@[k2].elapsed_millis
                        == FAILURE_SENTINEL,
                },
    {
        let site = &sites[k];
        let mut found = false;
        let mut cell = MatrixCell { resolved_address: None, elapsed_millis: FAILURE_SENTINEL };
        let mut i: usize = 0;
        proof {
            assert(results@.skip(0) =~= results@);
        }
        while i < results.len() && !found
            invariant
                i <= results@.len(),
                site == &sites@[k as int],
                !found ==> first_result_for(results@, sites@[k as int]@) == first_result_for(
                    results@.skip(i as int),
                    sites@[k as int]@,
                ),
                !found ==> cell.resolved_address is None && cell.elapsed_millis
                    == FAILURE_SENTINEL,
                found ==> match first_result_for(results@, sites@[k as int]@) {
                    Some(p) => cell.resolved_address == p.resolved_address && cell.elapsed_millis
                        == p.elapsed_millis,
                    None => false,
                },
            decreases results@.len() - i,
        {
            proof {
                assert(results@.skip(i as int)[0] == results@[i as int]);
            }
            if results[i].domain.eq(site) {
                cell = MatrixCell {
                    resolved_address: match &results[i].resolved_address {
                        Some(a) => Some(a.clone()),
                        None => None,
                    },
                    elapsed_millis: results[i].elapsed_millis,
                };
                found = true;
                proof {
                    assert(first_result_for(results@.skip(i as int), sites@[k as int]@) == Some(
                        results@[i as int],
                    ));
                }
            } else {
                proof {
                    assert(results@.skip(i as int).drop_first() =~= results@.skip(i as int + 1));
                }
            }
            i = i + 1;
        }
        proof {
            if !found {
                assert(results@.skip(i as int).len() == 0);
            }
        }
        r.push(cell);
    }
    r
}

} // verus!
