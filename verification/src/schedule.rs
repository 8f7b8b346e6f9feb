//! The sweep schedule: expanding resolver entries into concrete methods,
//! flattening site entries into the canonical domain list, and the
//! per-method task that walks that list in order and collects one probe
//! result per domain.
//!
//! Tasks run concurrently outside the library, under the concurrency
//! ceiling; the library fixes what each task does and what a complete sweep
//! must contain.

use vstd::prelude::*;
use vstd::string::StringExecFns;
use crate::models::{DnsMethod, DnsServer, SiteServer};
use crate::probe::{ProbeOutcome, ProbeResult};

verus! {

/// The concrete methods of one resolver entry, each tagged with the entry's
/// position in the resolver list: one method per IPv4 address, then one per
/// IPv6 address, then one per DoH endpoint.
pub open spec fn server_pairs(s: DnsServer, i: usize) -> Seq<(usize, DnsMethod)> {
    s.ipv4@.map_values(|a: String| (i, DnsMethod::IPv4(a))) + s.ipv6@.map_values(
        |a: String| (i, DnsMethod::IPv6(a)),
    ) + s.doh@.map_values(|a: String| (i, DnsMethod::DoH(a)))
}

/// The methods of the first `n` resolver entries, in list order.
pub open spec fn expanded_prefix(servers: Seq<DnsServer>, n: int) -> Seq<(usize, DnsMethod)>
    decreases n,
{
    if n <= 0 {
        Seq::empty()
    } else {
        expanded_prefix(servers, n - 1) + server_pairs(servers[n - 1], (n - 1) as usize)
    }
}

/// The full method list of a sweep: every entry's methods, in config order.
pub open spec fn expanded_methods(servers: Seq<DnsServer>) -> Seq<(usize, DnsMethod)> {
    expanded_prefix(servers, servers.len() as int)
}

/// Expands the resolver list into the ordered list of concrete methods, each
/// paired with the index of the resolver entry it came from.
pub fn expand_methods(servers: &Vec<DnsServer>) -> (r: Vec<(usize, DnsMethod)>)
    ensures
        r@ == expanded_methods(servers@),
{
    let mut r: Vec<(usize, DnsMethod)> = Vec::new();
    proof {
        assert(r@ =~= expanded_prefix(servers@, 0));
    }
    for i in 0..servers.len()
        invariant
            r@ =~= expanded_prefix(servers@, i as int),
    {
        let server = &servers[i];
        let ghost base = r@;
        for j in 0..server.ipv4.len()
            invariant
                r@ =~= base + server.ipv4@.take(j as int).map_values(
                    (|a: String| (i, DnsMethod::IPv4(a))),
                ),
                servers@[i as int] == *server,
        {
            r.push((i, DnsMethod::IPv4(server.ipv4[j].clone())));
            proof {
                assert(server.ipv4@.take(j + 1).map_values(
                    (|a: String| (i, DnsMethod::IPv4(a))),
                ) =~= server.ipv4@.take(j as int).map_values(
                    (|a: String| (i, DnsMethod::IPv4(a))),
                ).push((i, DnsMethod::IPv4(server.ipv4@[j as int]))));
            }
        }
        proof {
            assert(server.ipv4@.take(server.ipv4@.len() as int) =~= server.ipv4@);
        }
        let ghost base4 = r@;
        for j in 0..server.ipv6.len()
            invariant
                r@ =~= base4 + server.ipv6@.take(j as int).map_values(
                    (|a: String| (i, DnsMethod::IPv6(a))),
                ),
                servers@[i as int] == *server,
        {
            r.push((i, DnsMethod::IPv6(server.ipv6[j].clone())));
            proof {
                assert(server.ipv6@.take(j + 1).map_values(
                    (|a: String| (i, DnsMethod::IPv6(a))),
                ) =~= server.ipv6@.take(j as int).map_values(
                    (|a: String| (i, DnsMethod::IPv6(a))),
                ).push((i, DnsMethod::IPv6(server.ipv6@[j as int]))));
            }
        }
        proof {
            assert(server.ipv6@.take(server.ipv6@.len() as int) =~= server.ipv6@);
        }
        let ghost base6 = r@;
        for j in 0..server.doh.len()
            invariant
                r@ =~= base6 + server.doh@.take(j as int).map_values(
                    (|a: String| (i, DnsMethod::DoH(a))),
                ),
                servers@[i as int] == *server,
        {
            r.push((i, DnsMethod::DoH(server.doh[j].clone())));
            proof {
                assert(server.doh@.take(j + 1).map_values(
                    (|a: String| (i, DnsMethod::DoH(a))),
                ) =~= server.doh@.take(j as int).map_values(
                    (|a: String| (i, DnsMethod::DoH(a))),
                ).push((i, DnsMethod::DoH(server.doh@[j as int]))));
            }
        }
        proof {
            assert(server.doh@.take(server.doh@.len() as int) =~= server.doh@);
            assert(r@ =~= expanded_prefix(servers@, i + 1));
        }
    }
    proof {
        assert(r@ =~= expanded_methods(servers@));
    }
    r
}

/// The domains of the first `n` site entries, flattened in list order.
pub open spec fn flattened_prefix(servers: Seq<SiteServer>, n: int) -> Seq<String>
    decreases n,
{
    if n <= 0 {
        Seq::empty()
    } else {
        flattened_prefix(servers, n - 1) + servers[n - 1].url@
    }
}

/// The canonical domain list of a sweep: every site entry's domains, in
/// config order, duplicates kept.
pub open spec fn flattened_sites(servers: Seq<SiteServer>) -> Seq<String> {
    flattened_prefix(servers, servers.len() as int)
}

/// Flattens the site list into the canonical domain list.
pub fn flatten_sites(servers: &Vec<SiteServer>) -> (r: Vec<String>)
    ensures
        r@ == flattened_sites(servers@),
{
    let mut r: Vec<String> = Vec::new();
    proof {
        assert(r@ =~= flattened_prefix(servers@, 0));
    }
    for i in 0..servers.len()
        invariant
            r@ =~= flattened_prefix(servers@, i as int),
    {
        let server = &servers[i];
        let ghost base = r@;
        for j in 0..server.url.len()
            invariant
                r@ =~= base + server.url@.take(j as int),
                servers@[i as int] == *server,
        {
            r.push(server.url[j].clone());
            proof {
                assert(server.url@.take(j + 1) =~= server.url@.take(j as int).push(
                    server.url@[j as int],
                ));
            }
        }
        proof {
            assert(server.url@.take(server.url@.len() as int) =~= server.url@);
            assert(r@ =~= flattened_prefix(servers@, i + 1));
        }
    }
    r
}

/// The completed row of one method's task: which resolver entry and method it
/// measured, and one probe result per domain of the canonical list, in order.
pub struct TestResult {
    pub method_index: usize,
    pub dns_name: String,
    pub method: String,
    pub address: String,
    pub results: Vec<ProbeResult>,
}

impl TestResult {
    /// Every collected result is well formed.
    pub open spec fn wf(self) -> bool {
        forall|k: int| 0 <= k < self.results@.len() ==> (#[trigger] self.results@[k]).wf()
    }
}

/// One method's task: it walks its assigned domain list in the order
/// supplied, one probe per domain, and collects the results in that order.
pub struct MethodTask {
    pub method_index: usize,
    pub dns_name: String,
    pub method_name: String,
    pub address: String,
    pub sites: Vec<String>,
    pub results: Vec<ProbeResult>,
}

impl MethodTask {
    /// The task invariant: one well-formed result per domain already probed,
    /// in the order of the assigned domain list.
    pub open spec fn wf(self) -> bool {
        &&& self.results@.len() <= self.sites@.len()
        &&& forall|k: int| 0 <= k < self.results@.len() ==> (#[trigger] self.results@[k]).wf()
        &&& forall|k: int|
            0 <= k < self.results@.len() ==> (#[trigger] self.results@[k]).domain@
                == self.sites@[k]@
    }

    /// A fresh task for one method, with its assigned domain list.
    pub fn new(method_index: usize, dns_name: String, method: &DnsMethod, sites: Vec<String>) -> (t:
        MethodTask)
        ensures
            t.wf(),
            t.results@.len() == 0,
            t.method_index == method_index,
            t.dns_name == dns_name,
            t.sites == sites,
            t.method_name@ == match method {
                DnsMethod::IPv4(_) => "IPv4"@,
                DnsMethod::IPv6(_) => "IPv6"@,
                DnsMethod::DoH(_) => "DoH"@,
            },
            t.address@ == match method {
                DnsMethod::IPv4(a) => a@,
                DnsMethod::IPv6(a) => a@,
                DnsMethod::DoH(u) => u@,
            },
    {
        MethodTask {
            method_index,
            dns_name,
            method_name: String::from_str(method.name()),
            address: String::from_str(method.address()),
            sites,
            results: Vec::new(),
        }
    }

    /// Whether every assigned domain has been probed.
    pub fn is_complete(&self) -> (r: bool)
        ensures
            r == (self.results@.len() == self.sites@.len()),
    {
        self.results.len() == self.sites.len()
    }

    /// The next domain to probe: the first one without a result yet.
    pub fn next_domain(&self) -> (r: Option<String>)
        requires
            self.wf(),
        ensures
            match r {
                Some(d) => self.results@.len() < self.sites@.len() && d
                    == self.sites@[self.results@.len() as int],
                None => self.results@.len() == self.sites@.len(),
            },
    {
        if self.results.len() < self.sites.len() {
            Some(self.sites[self.results.len()].clone())
        } else {
            None
        }
    }

    /// Closes one probe: records the retry loop's best outcome as the result
    /// for the next unprobed domain.
    pub fn record_outcome(&mut self, best: &ProbeOutcome) -> (recorded: ProbeResult)
        requires
            old(self).wf(),
            old(self).results@.len() < old(self).sites@.len(),
            best.wf(),
        ensures
            final(self).wf(),
            final(self).method_index == old(self).method_index,
            final(self).dns_name == old(self).dns_name,
            final(self).method_name == old(self).method_name,
            final(self).address == old(self).address,
            final(self).sites == old(self).sites,
            final(self).results@ == old(self).results@.push(recorded),
            recorded.wf(),
            recorded.domain@ == old(self).sites@[old(self).results@.len() as int]@,
            recorded.elapsed_millis == best.elapsed_millis,
            recorded.resolved_address == best.resolved_address,
            recorded.success == best.success,
    {
        let domain = self.sites[self.results.len()].clone();
        let r = ProbeResult {
            domain,
            resolved_address: match &best.resolved_address {
                Some(a) => Some(a.clone()),
                None => None,
            },
            elapsed_millis: best.elapsed_millis,
            success: best.success,
        };
        let recorded = ProbeResult {
            domain: r.domain.clone(),
            resolved_address: match &r.resolved_address {
                Some(a) => Some(a.clone()),
                None => None,
            },
            elapsed_millis: r.elapsed_millis,
            success: r.success,
        };
        self.results.push(r);
        recorded
    }

    /// The method row of a task that has covered every assigned domain.
    pub fn into_result(self) -> (t: TestResult)
        requires
            self.wf(),
            self.results@.len() == self.sites@.len(),
        ensures
            t.wf(),
            t.method_index == self.method_index,
            t.dns_name == self.dns_name,
            t.method == self.method_name,
            t.address == self.address,
            t.results == self.results,
            t.results@.len() == self.sites@.len(),
            forall|k: int|
                0 <= k < t.results@.len() ==> (#[trigger] t.results@[k]).domain@
                    == self.sites@[k]@,
    {
        TestResult {
            method_index: self.method_index,
            dns_name: self.dns_name,
            method: self.method_name,
            address: self.address,
            results: self.results,
        }
    }
}

/// The number of probe results held across all method rows.
pub open spec fn total_results(rows: Seq<TestResult>) -> int
    decreases rows.len(),
{
    if rows.len() == 0 {
        0
    } else {
        total_results(rows.drop_last()) + rows.last().results@.len()
    }
}

/// Law: a complete sweep holds exactly one probe result per (method, domain)
/// pair — `rows.len() * sites.len()` in all — and, when the method indices
/// and the domains are distinct, no two results of the sweep stand for the
/// same pair.
pub proof fn lemma_sweep_coverage(rows: Seq<TestResult>, sites: Seq<String>)
    requires
        forall|i: int| 0 <= i < rows.len() ==> (#[trigger] rows[i]).results@.len() == sites.len(),
        forall|i: int, k: int|
            0 <= i < rows.len() && 0 <= k < sites.len() ==> (#[trigger] rows[i].results@[k]).domain@
                == sites[k]@,
        forall|i1: int, i2: int|
            0 <= i1 < i2 < rows.len() ==> rows[i1].method_index != rows[i2].method_index,
        forall|k1: int, k2: int| 0 <= k1 < k2 < sites.len() ==> sites[k1]@ != sites[k2]@,
    ensures
        total_results(rows) == rows.len() * sites.len(),
        forall|i1: int, k1: int, i2: int, k2: int|
            0 <= i1 < rows.len() && 0 <= k1 < sites.len() && 0 <= i2 < rows.len() && 0 <= k2
                < sites.len() && (i1 != i2 || k1 != k2) ==> (rows[i1].method_index
                != rows[i2].method_index || (#[trigger] rows[i1].results@[k1]).domain@ != (
            #[trigger] rows[i2].results@[k2]).domain@),
    decreases rows.len(),
{
    if rows.len() == 0 {
    } else {
        lemma_sweep_coverage(rows.drop_last(), sites);
        assert(total_results(rows) == (rows.len() - 1) * sites.len() + sites.len());
        assert((rows.len() - 1) * sites.len() + sites.len() == rows.len() * sites.len())
            by (nonlinear_arith);
    }
    assert forall|i1: int, k1: int, i2: int, k2: int|
        0 <= i1 < rows.len() && 0 <= k1 < sites.len() && 0 <= i2 < rows.len() && 0 <= k2
            < sites.len() && (i1 != i2 || k1 != k2) implies (rows[i1].method_index
        != rows[i2].method_index || (#[trigger] rows[i1].results@[k1]).domain@ != (
    #[trigger] rows[i2].results@[k2]).domain@) by {
        if i1 == i2 {
            assert(rows[i1].results@[k1].domain@ == sites[k1]@);
            assert(rows[i2].results@[k2].domain@ == sites[k2]@);
            if k1 < k2 {
                assert(sites[k1]@ != sites[k2]@);
            } else {
                assert(sites[k2]@ != sites[k1]@);
            }
        } else if i1 < i2 {
            assert(rows[i1].method_index != rows[i2].method_index);
        } else {
            assert(rows[i2].method_index != rows[i1].method_index);
        }
    }
}

} // verus!
