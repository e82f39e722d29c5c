//! Cloudflare: request bodies for record creation.
use vstd::prelude::*;
use crate::providers::{record_type_name, record_type_name_chars, DnsRecordInput, DnsRecordType};
use crate::text::string_of;

verus! {

/// The `data` object of an SRV record body.
#[derive(Clone, Debug)]
pub struct SrvData {
    pub priority: u16,
    pub weight: u16,
    pub port: u16,
    pub target: String,
}

/// Request body for `POST /zones/{zone}/dns_records`; `None` fields are
/// left out of the JSON object.
#[derive(Clone, Debug)]
pub struct CloudflareBody {
    /// `type`.
    pub record_type: String,
    /// `name`.
    pub name: String,
    /// `ttl`: Cloudflare's "auto" ttl is 1.
    pub ttl: u32,
    /// `content`, for every type but SRV.
    pub content: Option<String>,
    /// `proxied`, only for A, AAAA and CNAME (other types reject it).
    pub proxied: Option<bool>,
    /// `data`, for SRV only.
    pub data: Option<SrvData>,
}

/// The ttl sent to Cloudflare: 1 stands in for "auto".
pub open spec fn cloudflare_ttl(ttl: u32) -> u32 {
    if ttl == 0 {
        1
    } else {
        ttl
    }
}

/// Record types that accept the `proxied` flag.
pub open spec fn proxiable(t: DnsRecordType) -> bool {
    t == DnsRecordType::A || t == DnsRecordType::AAAA || t == DnsRecordType::CNAME
}

/// Request body for `POST /zones/{zone}/dns_records`.
pub fn create_body(record: &DnsRecordInput) -> (res: CloudflareBody)
    ensures
        res.record_type@ == record_type_name(record.record_type),
        res.name@ == record.name@,
        res.ttl == cloudflare_ttl(record.ttl),
        record.record_type == DnsRecordType::SRV ==> {
            &&& res.content is None
            &&& res.proxied is None
            &&& res.data matches Some(d) && d.priority == record.priority && d.weight
                == record.weight && d.port == record.port && d.target@ == record.content@
        },
        record.record_type != DnsRecordType::SRV ==> {
            &&& res.content matches Some(c) && c@ == record.content@
            &&& res.data is None
            &&& res.proxied == (if proxiable(record.record_type) {
                Some(record.proxied)
            } else {
                None
            })
        },
{
    let ttl = if record.ttl == 0 { 1 } else { record.ttl };
    let record_type = string_of(&record_type_name_chars(record.record_type));
    match record.record_type {
        DnsRecordType::SRV => CloudflareBody {
            record_type,
            name: record.name.clone(),
            ttl,
            content: None,
            proxied: None,
            data: Some(
                SrvData {
                    priority: record.priority,
                    weight: record.weight,
                    port: record.port,
                    target: record.content.clone(),
                },
            ),
        },
        other => {
            let proxied = match other {
                DnsRecordType::A | DnsRecordType::AAAA | DnsRecordType::CNAME => Some(
                    record.proxied,
                ),
                _ => None,
            };
            CloudflareBody {
                record_type,
                name: record.name.clone(),
                ttl,
                content: Some(record.content.clone()),
                proxied,
                data: None,
            }
        },
    }
}

} // verus!
