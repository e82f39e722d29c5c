//! Bunny.net DNS: record type ids, zone-relative names and request bodies.
use vstd::prelude::*;
use crate::providers::{DnsRecordInput, DnsRecordType};
use crate::text::{chars_eq, chars_of, ends_with, ends_with_exec, strip_suffix, string_of, copy_range};

verus! {

/// Bunny record type ids.
pub open spec fn spec_record_type_int(t: DnsRecordType) -> i64 {
    match t {
        DnsRecordType::A => 0,
        DnsRecordType::AAAA => 1,
        DnsRecordType::CNAME => 2,
        DnsRecordType::TXT => 3,
        DnsRecordType::SRV => 8,
    }
}

/// Bunny record type ids.
pub fn record_type_int(record_type: DnsRecordType) -> (res: i64)
    ensures
        res == spec_record_type_int(record_type),
{
    match record_type {
        DnsRecordType::A => 0,
        DnsRecordType::AAAA => 1,
        DnsRecordType::CNAME => 2,
        DnsRecordType::TXT => 3,
        DnsRecordType::SRV => 8,
    }
}

/// A zone-relative record name: empty for the apex, the FQDN without
/// `.{zone}` when it lies in the zone, otherwise the FQDN unchanged.
pub open spec fn spec_relative_name(fqdn: Seq<char>, zone: Seq<char>) -> Seq<char> {
    if fqdn == zone {
        seq![]
    } else {
        match strip_suffix(fqdn, seq!['.'] + zone) {
            Some(rel) => rel,
            None => fqdn,
        }
    }
}

/// Converts an FQDN into a Bunny zone-relative record name. The zone apex is
/// represented by an empty name.
pub fn relative_name(fqdn: &str, zone_domain: &str) -> (res: String)
    ensures
        res@ == spec_relative_name(fqdn@, zone_domain@),
{
    let name = chars_of(fqdn);
    let zone = chars_of(zone_domain);
    if chars_eq(&name, &zone) {
        return String::new();
    }
    let mut dotted = vec!['.'];
    let mut i: usize = 0;
    while i < zone.len()
        invariant
            i <= zone.len(),
            dotted@ == seq!['.'] + zone@.take(i as int),
        decreases zone.len() - i,
    {
        dotted.push(zone[i]);
        assert(zone@.take(i + 1) == zone@.take(i as int).push(zone@[i as int]));
        i = i + 1;
    }
    assert(zone@.take(zone.len() as int) == zone@);
    if ends_with_exec(&name, &dotted) {
        string_of(&copy_range(&name, 0, name.len() - dotted.len()))
    } else {
        fqdn.to_string()
    }
}

/// Request body for `PUT /dnszone/{zone}/records`.
#[derive(Clone, Debug)]
pub struct BunnyBody {
    /// `Type`: the Bunny record type id.
    pub record_type: i64,
    /// `Name`: zone-relative name.
    pub name: String,
    /// `Value`.
    pub value: String,
    /// `Ttl`: Bunny's "auto" ttl is 300.
    pub ttl: u32,
    pub priority: u16,
    pub weight: u16,
    pub port: u16,
}

/// The ttl sent to Bunny: 300 stands in for "auto".
pub open spec fn bunny_ttl(ttl: u32) -> u32 {
    if ttl == 0 {
        300
    } else {
        ttl
    }
}

/// Request body for `PUT /dnszone/{zone}/records`.
pub fn create_body(record: &DnsRecordInput, zone_domain: &str) -> (res: BunnyBody)
    ensures
        res.record_type == spec_record_type_int(record.record_type),
        res.name@ == spec_relative_name(record.name@, zone_domain@),
        res.value@ == record.content@,
        res.ttl == bunny_ttl(record.ttl),
        res.priority == record.priority,
        res.weight == record.weight,
        res.port == record.port,
{
    BunnyBody {
        record_type: record_type_int(record.record_type),
        name: relative_name(record.name.as_str(), zone_domain),
        value: record.content.clone(),
        ttl: if record.ttl == 0 { 300 } else { record.ttl },
        priority: record.priority,
        weight: record.weight,
        port: record.port,
    }
}

} // verus!

verus! {

use crate::records::spec_fqdn_name;
use crate::text::trim_end_char;

/// Law: a record name joined onto the zone and made zone-relative again is
/// the name itself (trailing dots dropped), for any name that is not the
/// apex and not already qualified.
pub proof fn law_relative_name_undoes_fqdn_name(rendered: Seq<char>, zone: Seq<char>)
    requires
        ({
            let r = trim_end_char(rendered, '.');
            &&& r.len() > 0
            &&& r != seq!['@']
            &&& r != zone
            &&& !ends_with(r, seq!['.'] + zone)
        }),
    ensures
        spec_relative_name(spec_fqdn_name(rendered, zone), zone) == trim_end_char(rendered, '.'),
{
    let r = trim_end_char(rendered, '.');
    let f = r + seq!['.'] + zone;
    assert(spec_fqdn_name(rendered, zone) == f);
    assert(f.len() > zone.len());
    assert(f.subrange(f.len() - (zone.len() + 1), f.len() as int) =~= seq!['.'] + zone);
    assert(f.subrange(0, f.len() - (zone.len() + 1)) =~= r);
}

/// Law: the apex (`@` or an empty name) is the empty relative name.
pub proof fn law_relative_name_of_apex(rendered: Seq<char>, zone: Seq<char>)
    requires
        ({
            let r = trim_end_char(rendered, '.');
            r.len() == 0 || r == seq!['@'] || r == zone
        }),
    ensures
        spec_relative_name(spec_fqdn_name(rendered, zone), zone) == Seq::<char>::empty(),
{
}

} // verus!
