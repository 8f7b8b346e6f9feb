//! Configuration data for a sweep: resolver entries, site entries and the
//! concrete query methods a resolver entry expands to.

use vstd::prelude::*;

verus! {

/// One resolver entry of the configuration: a named group of nameserver
/// addresses and DNS-over-HTTPS endpoints sharing a display name.
pub struct DnsServer {
    pub name: String,
    pub location: String,
    pub description: String,
    pub ipv4: Vec<String>,
    pub ipv6: Vec<String>,
    pub doh: Vec<String>,
    pub dot: Vec<String>,
}

/// The resolver list as loaded from the configuration.
pub struct DnsServersConfig {
    pub servers: Vec<DnsServer>,
}

/// One site entry of the configuration: a named group of target domains.
pub struct SiteServer {
    pub name: String,
    pub description: String,
    pub url: Vec<String>,
}

/// The site list as loaded from the configuration.
pub struct SiteServersConfig {
    pub servers: Vec<SiteServer>,
}

/// One concrete way to query a domain: a plain nameserver address (over IPv4
/// or IPv6) or a DNS-over-HTTPS endpoint URL.
pub enum DnsMethod {
    IPv4(String),
    IPv6(String),
    DoH(String),
}

impl DnsMethod {
    /// The human-readable kind of this method, used in report rows.
    pub fn name(&self) -> (r: &str)
        ensures
            r@ == match self {
                DnsMethod::IPv4(_) => "IPv4"@,
                DnsMethod::IPv6(_) => "IPv6"@,
                DnsMethod::DoH(_) => "DoH"@,
            },
    {
        match self {
            DnsMethod::IPv4(_) => "IPv4",
            DnsMethod::IPv6(_) => "IPv6",
            DnsMethod::DoH(_) => "DoH",
        }
    }

    /// The nameserver address or endpoint URL this method queries.
    pub fn address(&self) -> (r: &str)
        ensures
            r@ == match self {
                DnsMethod::IPv4(addr) => addr@,
                DnsMethod::IPv6(addr) => addr@,
                DnsMethod::DoH(url) => url@,
            },
    {
        match self {
            DnsMethod::IPv4(addr) => addr.as_str(),
            DnsMethod::IPv6(addr) => addr.as_str(),
            DnsMethod::DoH(url) => url.as_str(),
        }
    }
}

} // verus!
