//! Stored domains and subdomains, and the shapes the API answers with.
use vstd::prelude::*;
use crate::ipaddr::{ip_chars, ip_text, IpValue};
use crate::providers::{DnsRecordType, StoredRecord};
use crate::text::{chars_of, extend_chars, string_of};

verus! {

/// A configured DNS zone subdomains can be created under.
#[derive(Clone, Debug)]
pub struct Domain {
    pub uuid: u128,
    pub domain: String,
    pub provider: String,
    pub zone_id: String,
    /// Encrypted provider credential - never exposed via the API.
    pub credential: String,
    pub enabled: bool,
    /// Creation time, microseconds since the Unix epoch.
    pub created: i64,
}

/// Admin domain listing shape - the credential is never exposed.
#[derive(Clone, Debug)]
pub struct ApiDomain {
    pub uuid: u128,
    pub domain: String,
    pub provider: String,
    pub zone_id: String,
    pub enabled: bool,
    pub subdomain_count: i64,
    pub created: i64,
}

/// A domain reference in subdomain responses.
#[derive(Clone, Debug)]
pub struct ApiDomainRef {
    pub uuid: u128,
    pub domain: String,
}

impl Domain {
    /// Applies the provided fields of an update; `credential` is already
    /// encrypted.
    pub fn apply_update(
        &mut self,
        domain: Option<String>,
        provider: Option<String>,
        zone_id: Option<String>,
        credential: Option<String>,
        enabled: Option<bool>,
    )
        ensures
            final(self).uuid == old(self).uuid,
            final(self).created == old(self).created,
            final(self).domain@ == (match domain { Some(d) => d@, None => old(self).domain@ }),
            final(self).provider@ == (match provider { Some(p) => p@, None => old(self).provider@ }),
            final(self).zone_id@ == (match zone_id { Some(z) => z@, None => old(self).zone_id@ }),
            final(self).credential@ == (match credential {
                Some(c) => c@,
                None => old(self).credential@,
            }),
            final(self).enabled == (match enabled { Some(e) => e, None => old(self).enabled }),
    {
        if let Some(d) = domain {
            self.domain = d;
        }
        if let Some(p) = provider {
            self.provider = p;
        }
        if let Some(z) = zone_id {
            self.zone_id = z;
        }
        if let Some(c) = credential {
            self.credential = c;
        }
        if let Some(e) = enabled {
            self.enabled = e;
        }
    }

    /// The admin listing shape of a domain.
    pub fn into_api(self, subdomain_count: i64) -> (res: ApiDomain)
        ensures
            res.uuid == self.uuid,
            res.domain@ == self.domain@,
            res.provider@ == self.provider@,
            res.zone_id@ == self.zone_id@,
            res.enabled == self.enabled,
            res.subdomain_count == subdomain_count,
            res.created == self.created,
    {
        ApiDomain {
            uuid: self.uuid,
            domain: self.domain,
            provider: self.provider,
            zone_id: self.zone_id,
            enabled: self.enabled,
            subdomain_count,
            created: self.created,
        }
    }

    /// The reference shape of a domain.
    pub fn as_ref_api(&self) -> (res: ApiDomainRef)
        ensures
            res.uuid == self.uuid,
            res.domain@ == self.domain@,
    {
        ApiDomainRef { uuid: self.uuid, domain: self.domain.clone() }
    }
}

/// A created subdomain row.
#[derive(Clone, Debug)]
pub struct Subdomain {
    pub uuid: u128,
    pub server_uuid: u128,
    pub domain_uuid: u128,
    /// None when the allocation was deleted or the server was transferred.
    pub allocation_uuid: Option<u128>,
    pub name: String,
    pub records: Vec<StoredRecord>,
    pub created: i64,
}

impl Subdomain {
    /// Points the row at another allocation (or none) with new records.
    pub fn set_allocation_and_records(&mut self, allocation_uuid: Option<u128>, records: Vec<StoredRecord>)
        ensures
            final(self).allocation_uuid == allocation_uuid,
            final(self).records@ == records@,
            final(self).uuid == old(self).uuid,
            final(self).server_uuid == old(self).server_uuid,
            final(self).domain_uuid == old(self).domain_uuid,
            final(self).name@ == old(self).name@,
            final(self).created == old(self).created,
    {
        self.allocation_uuid = allocation_uuid;
        self.records = records;
    }

    /// The ids of the subdomain's DNS records, in order.
    pub fn record_ids(&self) -> (res: Vec<String>)
        ensures
            res@.len() == self.records@.len(),
            forall|i: int| 0 <= i < res@.len() ==> #[trigger] res@[i]@ == self.records@[i].id@,
    {
        let mut res: Vec<String> = Vec::new();
        let mut i: usize = 0;
        while i < self.records.len()
            invariant
                i <= self.records@.len(),
                res@.len() == i,
                forall|k: int| 0 <= k < i ==> #[trigger] res@[k]@ == self.records@[k].id@,
            decreases self.records@.len() - i,
        {
            res.push(self.records[i].id.clone());
            i = i + 1;
        }
        res
    }
}

/// An allocation reference in subdomain responses.
#[derive(Clone, Debug)]
pub struct ApiAllocationRef {
    pub uuid: u128,
    pub ip: String,
    pub ip_alias: Option<String>,
    pub port: i32,
}

/// A record in subdomain responses (without its provider id).
#[derive(Clone, Debug)]
pub struct ApiStoredRecord {
    pub record_type: DnsRecordType,
    pub name: String,
    pub content: String,
}

/// Public shape of a subdomain (client responses, and embedded in admin
/// responses).
#[derive(Clone, Debug)]
pub struct ApiSubdomain {
    pub uuid: u128,
    pub name: String,
    pub fqdn: String,
    pub domain: ApiDomainRef,
    pub allocation: Option<ApiAllocationRef>,
    pub records: Vec<ApiStoredRecord>,
    pub created: i64,
}

/// A server reference in admin responses.
#[derive(Clone, Debug)]
pub struct ApiServerRef {
    pub uuid: u128,
    pub name: String,
}

/// Admin listing shape: subdomain plus the owning server.
#[derive(Clone, Debug)]
pub struct ApiAdminSubdomain {
    pub subdomain: ApiSubdomain,
    pub server: ApiServerRef,
}

/// A subdomain row joined with its domain, server and allocation.
#[derive(Clone, Debug)]
pub struct JoinedSubdomain {
    pub uuid: u128,
    pub server_uuid: u128,
    pub domain_uuid: u128,
    pub allocation_uuid: Option<u128>,
    pub name: String,
    pub records: Vec<StoredRecord>,
    pub created: i64,
    pub domain_name: String,
    pub server_name: String,
    pub alloc_ip: Option<IpValue>,
    pub alloc_ip_alias: Option<String>,
    pub alloc_port: Option<i32>,
}

/// The allocation reference a joined row shows: present when the row has an
/// allocation and its address was found.
pub open spec fn allocation_ref_ok(j: JoinedSubdomain, r: Option<ApiAllocationRef>) -> bool {
    match (j.allocation_uuid, j.alloc_ip) {
        (Some(uuid), Some(ip)) => r matches Some(a) && a.uuid == uuid && a.ip@ == ip_text(ip)
            && a.ip_alias == j.alloc_ip_alias && a.port == (match j.alloc_port {
            Some(p) => p,
            None => 0,
        }),
        _ => r is None,
    }
}

/// The API records of a joined row: type, name and content of each record.
pub open spec fn api_records_ok(j: JoinedSubdomain, r: Seq<ApiStoredRecord>) -> bool {
    &&& r.len() == j.records@.len()
    &&& forall|i: int|
        0 <= i < r.len() ==> #[trigger] r[i].record_type == j.records@[i].record_type && r[i].name@
            == j.records@[i].name@ && r[i].content@ == j.records@[i].content@
}

/// The public shape of a joined row.
pub open spec fn api_subdomain_ok(j: JoinedSubdomain, s: ApiSubdomain) -> bool {
    &&& s.uuid == j.uuid
    &&& s.name@ == j.name@
    &&& s.fqdn@ == j.name@ + seq!['.'] + j.domain_name@
    &&& s.domain.uuid == j.domain_uuid
    &&& s.domain.domain@ == j.domain_name@
    &&& allocation_ref_ok(j, s.allocation)
    &&& api_records_ok(j, s.records@)
    &&& s.created == j.created
}

impl JoinedSubdomain {
    /// `{name}.{domain}`.
    pub fn fqdn(&self) -> (res: String)
        ensures
            res@ == self.name@ + seq!['.'] + self.domain_name@,
    {
        let mut text = chars_of(self.name.as_str());
        text.push('.');
        extend_chars(&mut text, &chars_of(self.domain_name.as_str()));
        assert(text@ =~= self.name@ + seq!['.'] + self.domain_name@);
        string_of(&text)
    }

    fn allocation_ref(&self) -> (res: Option<ApiAllocationRef>)
        ensures
            allocation_ref_ok(*self, res),
    {
        match (self.allocation_uuid, &self.alloc_ip) {
            (Some(uuid), Some(ip)) => Some(
                ApiAllocationRef {
                    uuid,
                    ip: string_of(&ip_chars(ip)),
                    ip_alias: match &self.alloc_ip_alias {
                        Some(a) => Some(a.clone()),
                        None => None,
                    },
                    port: match self.alloc_port {
                        Some(p) => p,
                        None => 0,
                    },
                },
            ),
            _ => None,
        }
    }

    fn api_records(&self) -> (res: Vec<ApiStoredRecord>)
        ensures
            api_records_ok(*self, res@),
    {
        let mut res: Vec<ApiStoredRecord> = Vec::new();
        let mut i: usize = 0;
        while i < self.records.len()
            invariant
                i <= self.records@.len(),
                res@.len() == i,
                forall|k: int|
                    0 <= k < i ==> #[trigger] res@[k].record_type == self.records@[k].record_type
                        && res@[k].name@ == self.records@[k].name@ && res@[k].content@
                        == self.records@[k].content@,
            decreases self.records@.len() - i,
        {
            let r = &self.records[i];
            res.push(ApiStoredRecord {
                record_type: r.record_type,
                name: r.name.clone(),
                content: r.content.clone(),
            });
            i = i + 1;
        }
        res
    }

    /// The public shape of the subdomain.
    pub fn into_subdomain_api(self) -> (res: ApiSubdomain)
        ensures
            api_subdomain_ok(self, res),
    {
        ApiSubdomain {
            uuid: self.uuid,
            name: self.name.clone(),
            fqdn: self.fqdn(),
            domain: ApiDomainRef { uuid: self.domain_uuid, domain: self.domain_name.clone() },
            allocation: self.allocation_ref(),
            records: self.api_records(),
            created: self.created,
        }
    }

    /// The admin shape: the subdomain plus its server.
    pub fn into_api(self) -> (res: ApiAdminSubdomain)
        ensures
            api_subdomain_ok(self, res.subdomain),
            res.server.uuid == self.server_uuid,
            res.server.name@ == self.server_name@,
    {
        let server = ApiServerRef { uuid: self.server_uuid, name: self.server_name.clone() };
        ApiAdminSubdomain { subdomain: self.into_subdomain_api(), server }
    }
}

/// Offset of a page of a listing (`per_page * (page - 1)`).
pub fn page_offset(page: i64, per_page: i64) -> (res: i64)
    requires
        i64::MIN <= per_page * (page - 1) <= i64::MAX,
        page - 1 >= i64::MIN,
    ensures
        res == per_page * (page - 1),
{
    let previous = page - 1;
    assert(i64::MIN <= per_page * previous <= i64::MAX);
    per_page * previous
}

} // verus!
