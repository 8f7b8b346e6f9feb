use dnsbench::aggregate::{row_cells, summarize, summarize_one};
use dnsbench::doh::{doh_request_url, doh_success_attempt, first_a_record_data, DohRecord};
use dnsbench::limiter::Limiter;
use dnsbench::models::{DnsMethod, DnsServer, SiteServer};
use dnsbench::probe::{
    canonical_domain, measure_from_attempts, ProbeOutcome, ProbeResult, RetryState, MAX_RETRIES,
    RETRY_THRESHOLD,
};
use dnsbench::schedule::{expand_methods, flatten_sites, MethodTask};

fn server(name: &str, ipv4: &[&str], ipv6: &[&str], doh: &[&str]) -> DnsServer {
    DnsServer {
        name: name.to_string(),
        location: String::new(),
        description: String::new(),
        ipv4: ipv4.iter().map(|s| s.to_string()).collect(),
        ipv6: ipv6.iter().map(|s| s.to_string()).collect(),
        doh: doh.iter().map(|s| s.to_string()).collect(),
        dot: Vec::new(),
    }
}

fn ok_attempt(addr: &str, millis: i64) -> ProbeOutcome {
    ProbeOutcome::succeeded(addr.to_string(), millis)
}

#[test]
fn failed_outcome_carries_all_three_failure_marks() {
    let o = ProbeOutcome::failed();
    assert!(!o.success);
    assert_eq!(o.elapsed_millis, -1);
    assert!(o.resolved_address.is_none());
}

#[test]
fn succeeded_outcome_carries_address_and_latency() {
    let o = ok_attempt("1.2.3.4", 42);
    assert!(o.success);
    assert_eq!(o.elapsed_millis, 42);
    assert_eq!(o.resolved_address.as_deref(), Some("1.2.3.4"));
}

#[test]
fn retry_constants_match_policy() {
    assert_eq!(MAX_RETRIES, 3);
    assert_eq!(RETRY_THRESHOLD, 500);
}

#[test]
fn retry_stops_at_first_attempt_under_threshold() {
    let attempts = vec![ok_attempt("a", 120), ok_attempt("b", 90), ok_attempt("c", 80)];
    let (best, used) = measure_from_attempts(&attempts);
    assert_eq!(used, 1);
    assert!(best.success);
    assert_eq!(best.elapsed_millis, 120);
    assert_eq!(best.resolved_address.as_deref(), Some("a"));
}

#[test]
fn retry_keeps_fastest_success_and_stops_when_good_enough() {
    let attempts = vec![ok_attempt("a", 600), ok_attempt("b", 450), ok_attempt("c", 100)];
    let (best, used) = measure_from_attempts(&attempts);
    assert_eq!(used, 2);
    assert_eq!(best.elapsed_millis, 450);
    assert_eq!(best.resolved_address.as_deref(), Some("b"));
}

#[test]
fn retry_exhausts_budget_on_slow_successes() {
    let attempts = vec![ok_attempt("a", 600), ok_attempt("b", 700), ok_attempt("c", 650)];
    let (best, used) = measure_from_attempts(&attempts);
    assert_eq!(used, 3);
    assert_eq!(best.elapsed_millis, 600);
    assert_eq!(best.resolved_address.as_deref(), Some("a"));
}

#[test]
fn retry_all_failures_yields_failure_after_max_retries() {
    let attempts = vec![
        ProbeOutcome::failed(),
        ProbeOutcome::failed(),
        ProbeOutcome::failed(),
        ProbeOutcome::failed(),
    ];
    let (best, used) = measure_from_attempts(&attempts);
    assert_eq!(used, MAX_RETRIES as usize);
    assert!(!best.success);
    assert_eq!(best.elapsed_millis, -1);
    assert!(best.resolved_address.is_none());
}

#[test]
fn retry_failure_then_fast_success() {
    let attempts = vec![ProbeOutcome::failed(), ok_attempt("a", 30)];
    let (best, used) = measure_from_attempts(&attempts);
    assert_eq!(used, 2);
    assert!(best.success);
    assert_eq!(best.elapsed_millis, 30);
}

#[test]
fn retry_state_steps_count_and_finish() {
    let mut st = RetryState::new();
    let done = st.step(&ok_attempt("x", 800));
    assert!(!done);
    let done = st.step(&ProbeOutcome::failed());
    assert!(!done);
    let done = st.step(&ok_attempt("y", 700));
    assert!(done);
    let r = st.finish("example.com".to_string());
    assert_eq!(r.domain, "example.com");
    assert!(r.success);
    assert_eq!(r.elapsed_millis, 700);
    assert_eq!(r.resolved_address.as_deref(), Some("y"));
}

#[test]
fn canonical_domain_appends_missing_dot() {
    assert_eq!(canonical_domain("example.com"), "example.com.");
}

#[test]
fn canonical_domain_keeps_existing_dot() {
    assert_eq!(canonical_domain("example.com."), "example.com.");
}

#[test]
fn canonical_domain_of_empty_is_the_root_dot() {
    assert_eq!(canonical_domain(""), ".");
}

#[test]
fn doh_answer_with_a_record_yields_its_data() {
    let records = vec![DohRecord { rtype: Some(1), data: Some("93.184.216.34".to_string()) }];
    assert_eq!(first_a_record_data(&records).as_deref(), Some("93.184.216.34"));
    let o = doh_success_attempt(&records, 120);
    assert!(o.success);
    assert_eq!(o.elapsed_millis, 120);
    assert_eq!(o.resolved_address.as_deref(), Some("93.184.216.34"));
}

#[test]
fn doh_fast_answer_stops_retrying_after_one_attempt() {
    let records = vec![DohRecord { rtype: Some(1), data: Some("93.184.216.34".to_string()) }];
    let attempt = doh_success_attempt(&records, 120);
    let (best, used) = measure_from_attempts(&vec![attempt]);
    assert_eq!(used, 1);
    assert!(best.success);
    assert_eq!(best.elapsed_millis, 120);
    assert_eq!(best.resolved_address.as_deref(), Some("93.184.216.34"));
}

#[test]
fn doh_answer_without_a_record_is_a_timing_success_with_placeholder() {
    let records = vec![DohRecord { rtype: Some(16), data: Some("spf".to_string()) }];
    assert_eq!(first_a_record_data(&records), None);
    let o = doh_success_attempt(&records, 75);
    assert!(o.success);
    assert_eq!(o.elapsed_millis, 75);
    assert_eq!(o.resolved_address.as_deref(), Some("N/A"));
}

#[test]
fn doh_first_a_record_wins() {
    let records = vec![
        DohRecord { rtype: Some(16), data: Some("txt".to_string()) },
        DohRecord { rtype: Some(1), data: Some("10.0.0.1".to_string()) },
        DohRecord { rtype: Some(1), data: Some("10.0.0.2".to_string()) },
    ];
    assert_eq!(first_a_record_data(&records).as_deref(), Some("10.0.0.1"));
}

#[test]
fn doh_a_record_without_data_yields_placeholder() {
    let records = vec![DohRecord { rtype: Some(1), data: None }];
    assert_eq!(first_a_record_data(&records), None);
    let o = doh_success_attempt(&records, 10);
    assert_eq!(o.resolved_address.as_deref(), Some("N/A"));
}

#[test]
fn doh_request_url_appends_query_pairs() {
    let r = doh_request_url("https://doh.example/dns-query", "example.org");
    assert_eq!(r.as_deref(), Some("https://doh.example/dns-query?name=example.org&type=A"));
}

#[test]
fn doh_request_url_rejects_malformed_endpoint() {
    assert_eq!(doh_request_url("not a url", "example.org"), None);
}

#[test]
fn method_name_and_address_by_variant() {
    let v4 = DnsMethod::IPv4("9.9.9.9".to_string());
    let v6 = DnsMethod::IPv6("2620:fe::fe".to_string());
    let doh = DnsMethod::DoH("https://dns.example/dns-query".to_string());
    assert_eq!(v4.name(), "IPv4");
    assert_eq!(v6.name(), "IPv6");
    assert_eq!(doh.name(), "DoH");
    assert_eq!(v4.address(), "9.9.9.9");
    assert_eq!(v6.address(), "2620:fe::fe");
    assert_eq!(doh.address(), "https://dns.example/dns-query");
}

#[test]
fn expand_methods_orders_v4_v6_doh_within_each_server() {
    let servers = vec![
        server("One", &["1.1.1.1", "1.0.0.1"], &["2606::1"], &["https://one.example/dns-query"]),
        server("Two", &[], &[], &["https://two.example/dns-query"]),
    ];
    let methods = expand_methods(&servers);
    assert_eq!(methods.len(), 5);
    assert_eq!(methods[0].0, 0);
    assert!(matches!(&methods[0].1, DnsMethod::IPv4(a) if a == "1.1.1.1"));
    assert!(matches!(&methods[1].1, DnsMethod::IPv4(a) if a == "1.0.0.1"));
    assert!(matches!(&methods[2].1, DnsMethod::IPv6(a) if a == "2606::1"));
    assert!(matches!(&methods[3].1, DnsMethod::DoH(u) if u == "https://one.example/dns-query"));
    assert_eq!(methods[4].0, 1);
    assert!(matches!(&methods[4].1, DnsMethod::DoH(u) if u == "https://two.example/dns-query"));
}

#[test]
fn flatten_sites_keeps_order_and_duplicates() {
    let sites = vec![
        SiteServer {
            name: "a".to_string(),
            description: String::new(),
            url: vec!["x.com".to_string(), "y.com".to_string()],
        },
        SiteServer {
            name: "b".to_string(),
            description: String::new(),
            url: vec!["x.com".to_string()],
        },
    ];
    let flat = flatten_sites(&sites);
    assert_eq!(flat, vec!["x.com", "y.com", "x.com"]);
}

#[test]
fn method_task_walks_domains_in_order() {
    let method = DnsMethod::IPv4("1.1.1.1".to_string());
    let sites = vec!["a.com".to_string(), "b.com".to_string()];
    let mut task = MethodTask::new(0, "One".to_string(), &method, sites);
    assert_eq!(task.next_domain().as_deref(), Some("a.com"));
    let mut st = RetryState::new();
    st.step(&ok_attempt("9.9.9.9", 50));
    task.record_outcome(&st.best_outcome());
    assert_eq!(task.next_domain().as_deref(), Some("b.com"));
    let st2 = RetryState::new();
    task.record_outcome(&st2.best_outcome());
    assert_eq!(task.next_domain(), None);
    assert!(task.is_complete());
    let row = task.into_result();
    assert_eq!(row.results.len(), 2);
    assert_eq!(row.results[0].domain, "a.com");
    assert_eq!(row.results[0].resolved_address.as_deref(), Some("9.9.9.9"));
    assert_eq!(row.results[1].domain, "b.com");
    assert!(!row.results[1].success);
    assert_eq!(row.method, "IPv4");
    assert_eq!(row.address, "1.1.1.1");
}

#[test]
fn sweep_produces_one_result_per_pair() {
    let servers = vec![server("One", &["1.1.1.1"], &[], &["https://one.example/dns-query"])];
    let methods = expand_methods(&servers);
    let sites = vec!["a.com".to_string(), "b.com".to_string(), "c.com".to_string()];
    let mut total = 0;
    for (pos, (sidx, method)) in methods.iter().enumerate() {
        let mut task =
            MethodTask::new(pos, servers[*sidx].name.clone(), method, sites.clone());
        while task.next_domain().is_some() {
            let mut st = RetryState::new();
            loop {
                let done = st.step(&ProbeOutcome::failed());
                if done {
                    break;
                }
            }
            task.record_outcome(&st.best_outcome());
        }
        let row = task.into_result();
        total += row.results.len();
    }
    assert_eq!(total, methods.len() * sites.len());
}

fn probe_result(domain: &str, addr: Option<&str>, millis: i64) -> ProbeResult {
    ProbeResult {
        domain: domain.to_string(),
        resolved_address: addr.map(|s| s.to_string()),
        elapsed_millis: millis,
        success: millis != -1,
    }
}

fn row(method_index: usize, name: &str, results: Vec<ProbeResult>) -> dnsbench::schedule::TestResult {
    dnsbench::schedule::TestResult {
        method_index,
        dns_name: name.to_string(),
        method: "IPv4".to_string(),
        address: "1.1.1.1".to_string(),
        results,
    }
}

#[test]
fn summary_statistics_over_successes_only() {
    let t = row(
        0,
        "One",
        vec![
            probe_result("a.com", Some("1.2.3.4"), 100),
            probe_result("b.com", None, -1),
            probe_result("c.com", Some("1.2.3.5"), 300),
        ],
    );
    let s = summarize_one(t);
    assert_eq!(s.success_count, 2);
    assert_eq!(s.total_latency, 400);
    assert_eq!(s.max_latency, 300);
    assert_eq!(s.min_latency, 100);
    assert_eq!(s.failures, 1);
}

#[test]
fn summary_without_successes_is_unavailable() {
    let t = row(0, "One", vec![probe_result("a.com", None, -1)]);
    let s = summarize_one(t);
    assert_eq!(s.success_count, 0);
    assert_eq!(s.failures, 1);
    assert_eq!(s.total_latency, 0);
    assert_eq!(s.max_latency, -1);
    assert_eq!(s.min_latency, -1);
}

#[test]
fn summaries_come_back_in_method_enumeration_order() {
    let rows = vec![
        row(2, "C", vec![probe_result("a.com", Some("3.3.3.3"), 30)]),
        row(0, "A", vec![probe_result("a.com", Some("1.1.1.1"), 10)]),
        row(1, "B", vec![probe_result("a.com", Some("2.2.2.2"), 20)]),
    ];
    let summaries = summarize(rows);
    assert_eq!(summaries.len(), 3);
    assert_eq!(summaries[0].method_index, 0);
    assert_eq!(summaries[0].dns_name, "A");
    assert_eq!(summaries[1].method_index, 1);
    assert_eq!(summaries[1].dns_name, "B");
    assert_eq!(summaries[2].method_index, 2);
    assert_eq!(summaries[2].dns_name, "C");
}

#[test]
fn failing_probe_yields_failure_row_and_sentinel_cells() {
    let servers = vec![server("Test", &["203.0.113.1"], &[], &[])];
    let methods = expand_methods(&servers);
    assert_eq!(methods.len(), 1);
    let sites = vec!["example.com".to_string()];
    let (sidx, method) = &methods[0];
    let mut task = MethodTask::new(0, servers[*sidx].name.clone(), method, sites.clone());
    let mut st = RetryState::new();
    loop {
        if st.step(&ProbeOutcome::failed()) {
            break;
        }
    }
    task.record_outcome(&st.best_outcome());
    let rowr = task.into_result();
    let summaries = summarize(vec![rowr]);
    assert_eq!(summaries[0].failures, 1);
    assert_eq!(summaries[0].success_count, 0);
    let cells = row_cells(&summaries[0].results, &sites);
    assert_eq!(cells.len(), 1);
    assert!(cells[0].resolved_address.is_none());
    assert_eq!(cells[0].elapsed_millis, -1);
}

#[test]
fn row_cells_follow_canonical_site_order_with_sentinels_for_missing() {
    let results = vec![
        probe_result("b.com", Some("2.2.2.2"), 20),
        probe_result("a.com", Some("1.1.1.1"), 10),
    ];
    let sites =
        vec!["a.com".to_string(), "b.com".to_string(), "c.com".to_string()];
    let cells = row_cells(&results, &sites);
    assert_eq!(cells.len(), 3);
    assert_eq!(cells[0].resolved_address.as_deref(), Some("1.1.1.1"));
    assert_eq!(cells[0].elapsed_millis, 10);
    assert_eq!(cells[1].resolved_address.as_deref(), Some("2.2.2.2"));
    assert_eq!(cells[1].elapsed_millis, 20);
    assert!(cells[2].resolved_address.is_none());
    assert_eq!(cells[2].elapsed_millis, -1);
}

#[test]
fn limiter_never_admits_past_the_ceiling() {
    let mut limiter = Limiter::new(2);
    assert!(limiter.try_acquire());
    assert!(limiter.try_acquire());
    assert!(!limiter.try_acquire());
    assert_eq!(limiter.in_flight, 2);
    limiter.release();
    assert!(limiter.try_acquire());
    assert!(!limiter.try_acquire());
    assert!(limiter.in_flight <= limiter.capacity);
}

#[test]
fn limiter_with_zero_capacity_admits_nothing() {
    let mut limiter = Limiter::new(0);
    assert!(!limiter.try_acquire());
    assert_eq!(limiter.in_flight, 0);
}
