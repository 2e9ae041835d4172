//! The network service record that makes this host discoverable.

use crate::text::{ends_with, has_suffix};
use vstd::prelude::*;

verus! {

/// The suffix that every advertised host label carries.
pub open spec fn local_suffix() -> Seq<char> {
    ".local."@
}

/// The host label advertised for a configured host name: the name itself when
/// it already ends with `.local.`, else the name with `.local.` appended.
pub open spec fn host_label(name: Seq<char>) -> Seq<char> {
    if ends_with(name, local_suffix()) {
        name
    } else {
        name + local_suffix()
    }
}

/// Normalizing a host name twice gives the same label as normalizing it once.
pub proof fn lemma_host_label_idempotent(name: Seq<char>)
    ensures
        host_label(host_label(name)) == host_label(name),
{
    let once = host_label(name);
    if !ends_with(name, local_suffix()) {
        let s = local_suffix();
        assert(once.subrange(once.len() - s.len(), once.len() as int) == s);
    }
}

/// The host label for a configured host name, ending with `.local.`.
pub fn normalize_host_name(host_name: &str) -> (r: String)
    ensures
        r@ == host_label(host_name@),
{
    if has_suffix(host_name, ".local.") {
        String::from_str(host_name)
    } else {
        let mut r = String::from_str(host_name);
        r.append(".local.");
        r
    }
}

/// The service type under which this host is advertised.
pub open spec fn service_type() -> Seq<char> {
    "_http._tcp.local."@
}

/// The instance name under which this host is advertised.
pub open spec fn instance_name() -> Seq<char> {
    "AirDropPro"@
}

/// A discoverable record: an HTTP service on this host, with no attributes.
#[derive(Debug, Clone)]
pub struct ServiceRecord {
    pub service_type: String,
    pub instance_name: String,
    pub host_label: String,
    /// The IPv4 address, octet by octet.
    pub ip: [u8; 4],
    pub port: u16,
}

impl ServiceRecord {
    /// The record for a host name, its address and the port it serves on.
    pub fn new(host_name: &str, ip: [u8; 4], port: u16) -> (r: ServiceRecord)
        ensures
            r.service_type@ == service_type(),
            r.instance_name@ == instance_name(),
            r.host_label@ == host_label(host_name@),
            r.ip == ip,
            r.port == port,
    {
        ServiceRecord {
            service_type: String::from_str("_http._tcp.local."),
            instance_name: String::from_str("AirDropPro"),
            host_label: normalize_host_name(host_name),
            ip,
            port,
        }
    }

    /// The record as the advertising daemon takes it.
    pub fn to_service_info(&self) -> mdns_sd::ServiceInfo {
        service_info(self).unwrap()
    }
}

#[verifier::external_type_specification]
#[verifier::external_body]
pub struct ExServiceInfo(mdns_sd::ServiceInfo);

#[verifier::external_type_specification]
#[verifier::external_body]
pub struct ExMdnsError(mdns_sd::Error);

/// Relies on mdns-sd's `ServiceInfo::new`, given the record's fields, its address
/// in dotted decimal and no attributes. It fails only on an address that does
/// not parse and on bad attribute keys, so here it succeeds.
#[verifier::external_body]
fn service_info(record: &ServiceRecord) -> (r: Result<mdns_sd::ServiceInfo, mdns_sd::Error>)
    ensures
        r is Ok,
{
    let [a, b, c, d] = record.ip;
    mdns_sd::ServiceInfo::new(
        record.service_type.as_str(),
        record.instance_name.as_str(),
        record.host_label.as_str(),
        format!("{}.{}.{}.{}", a, b, c, d).as_str(),
        record.port,
        std::collections::HashMap::<String, String>::new(),
    )
}

} // verus!
