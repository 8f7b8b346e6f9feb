//! DNS-over-HTTPS probing: the request URL for one query and the extraction
//! of an address from the JSON answer.
//!
//! The HTTP exchange and the JSON decoding live outside the library; callers
//! hand in the answer as a list of [`DohRecord`] values, one per entry of the
//! response's `Answer` array.

use vstd::prelude::*;
use vstd::string::StringExecFns;
use crate::probe::ProbeOutcome;

verus! {

/// The DNS record type number of an A record.
pub const A_RECORD_TYPE: i64 = 1;

/// What the library reads of one entry of a DoH answer: its record type, if
/// the entry carried a numeric `type` field, and its data, if the entry
/// carried a textual `data` field.
pub struct DohRecord {
    pub rtype: Option<i64>,
    pub data: Option<String>,
}

/// The data of the first A record of an answer: `None` when no entry is an A
/// record, and the first A record's data otherwise — which is itself absent
/// when that entry carried no textual data.
pub open spec fn first_a_data(records: Seq<DohRecord>) -> Option<String>
    decreases records.len(),
{
    if records.len() == 0 {
        None
    } else if records[0].rtype == Some(A_RECORD_TYPE) {
        records[0].data
    } else {
        first_a_data(records.drop_first())
    }
}

/// Finds the data of the first A record in the answer.
pub fn first_a_record_data(records: &Vec<DohRecord>) -> (r: Option<String>)
    ensures
        r == first_a_data(records@),
{
    let mut i: usize = 0;
    proof {
        assert(records@.skip(0) =~= records@);
    }
    while i < records.len()
        invariant
            i <= records@.len(),
            first_a_data(records@) == first_a_data(records@.skip(i as int)),
            forall|j: int| 0 <= j < i ==> (#[trigger] records@[j]).rtype != Some(A_RECORD_TYPE),
        decreases records@.len() - i,
    {
        let is_a = match records[i].rtype {
            Some(t) => t == A_RECORD_TYPE,
            None => false,
        };
        proof {
            assert(records@.skip(i as int)[0] == records@[i as int]);
        }
        if is_a {
            proof {
                assert(first_a_data(records@.skip(i as int)) == records@[i as int].data);
            }
            return match &records[i].data {
                Some(d) => Some(d.clone()),
                None => None,
            };
        }
        proof {
            assert(records@.skip(i as int).drop_first() =~= records@.skip(i as int + 1));
        }
        i = i + 1;
    }
    proof {
        assert(records@.skip(i as int).len() == 0);
    }
    None
}

/// The outcome of one DoH attempt whose HTTP request succeeded: a timing
/// success, carrying the first A record's data as the address, or the
/// placeholder "N/A" when the answer reported no A record.
pub fn doh_success_attempt(records: &Vec<DohRecord>, elapsed_millis: i64) -> (r: ProbeOutcome)
    requires
        elapsed_millis >= 0,
    ensures
        r.wf(),
        r.success,
        r.elapsed_millis == elapsed_millis,
        match first_a_data(records@) {
            Some(d) => r.resolved_address == Some(d),
            None => r.resolved_address matches Some(a) && a@ == "N/A"@,
        },
{
    let address = match first_a_record_data(records) {
        Some(d) => d,
        None => String::from_str("N/A"),
    };
    ProbeOutcome::succeeded(address, elapsed_millis)
}

/// What `url::Url::parse_with_params` yields for a DoH endpoint and a domain:
/// the serialized query URL, or `None` when the endpoint URL is malformed.
pub uninterp spec fn doh_query_url(endpoint: Seq<char>, domain: Seq<char>) -> Option<Seq<char>>;

/// Relies on url::Url::parse_with_params: it parses the endpoint URL and
/// appends the given query pairs, a function of its arguments alone, failing
/// exactly when the endpoint URL is malformed.
#[verifier::external_body]
fn parse_query_url(endpoint: &str, domain: &str) -> (r: Option<String>)
    ensures
        match r {
            Some(u) => doh_query_url(endpoint@, domain@) == Some(u@),
            None => doh_query_url(endpoint@, domain@) is None,
        },
{
    match url::Url::parse_with_params(endpoint, &[("name", domain), ("type", "A")]) {
        Ok(u) => Some(String::from(u)),
        Err(_) => None,
    }
}

/// Builds the request URL for one DoH query: the endpoint with
/// `name=<domain>&type=A` appended, or `None` when the endpoint URL is
/// malformed — in which case the whole probe degrades to a failure.
pub fn doh_request_url(endpoint: &str, domain: &str) -> (r: Option<String>)
    ensures
        match r {
            Some(u) => doh_query_url(endpoint@, domain@) == Some(u@),
            None => doh_query_url(endpoint@, domain@) is None,
        },
{
    parse_query_url(endpoint, domain)
}

} // verus!
