//! Provider-independent DNS record types and the choice of provider.
use vstd::prelude::*;
use crate::text::{chars_eq, chars_of, extend_chars, string_of};

pub mod bunny;
pub mod cloudflare;
pub mod powerdns;

verus! {

/// DNS record types supported by every provider (variant names are the
/// literal DNS record type names).
#[allow(clippy::upper_case_acronyms)]
#[derive(Clone, Copy, PartialEq, Eq, Structural, Debug)]
pub enum DnsRecordType {
    A,
    AAAA,
    CNAME,
    TXT,
    SRV,
}

/// The record type's name as `Debug` writes it (`"A"`, `"AAAA"`, ...).
pub open spec fn record_type_name(t: DnsRecordType) -> Seq<char> {
    match t {
        DnsRecordType::A => seq!['A'],
        DnsRecordType::AAAA => seq!['A', 'A', 'A', 'A'],
        DnsRecordType::CNAME => seq!['C', 'N', 'A', 'M', 'E'],
        DnsRecordType::TXT => seq!['T', 'X', 'T'],
        DnsRecordType::SRV => seq!['S', 'R', 'V'],
    }
}

/// The record type's name.
pub fn record_type_name_chars(t: DnsRecordType) -> (res: Vec<char>)
    ensures
        res@ == record_type_name(t),
{
    match t {
        DnsRecordType::A => vec!['A'],
        DnsRecordType::AAAA => vec!['A', 'A', 'A', 'A'],
        DnsRecordType::CNAME => vec!['C', 'N', 'A', 'M', 'E'],
        DnsRecordType::TXT => vec!['T', 'X', 'T'],
        DnsRecordType::SRV => vec!['S', 'R', 'V'],
    }
}

/// A fully-rendered DNS record ready to be sent to a provider.
/// `name` is always the FQDN; providers that want relative names strip the
/// zone suffix themselves. `ttl` of `0` means "provider auto".
#[derive(Clone, Debug)]
pub struct DnsRecordInput {
    pub record_type: DnsRecordType,
    pub name: String,
    /// Record value; for SRV this is the target host.
    pub content: String,
    pub ttl: u32,
    pub proxied: bool,
    pub priority: u16,
    pub weight: u16,
    pub port: u16,
}

/// The abstract value of a [`DnsRecordInput`].
pub struct RecordInputModel {
    pub record_type: DnsRecordType,
    pub name: Seq<char>,
    pub content: Seq<char>,
    pub ttl: u32,
    pub proxied: bool,
    pub priority: u16,
    pub weight: u16,
    pub port: u16,
}

impl View for DnsRecordInput {
    type V = RecordInputModel;

    open spec fn view(&self) -> RecordInputModel {
        RecordInputModel {
            record_type: self.record_type,
            name: self.name@,
            content: self.content@,
            ttl: self.ttl,
            proxied: self.proxied,
            priority: self.priority,
            weight: self.weight,
            port: self.port,
        }
    }
}

/// A record as persisted with its subdomain - enough to delete it again.
#[derive(Clone, Debug)]
pub struct StoredRecord {
    pub id: String,
    pub record_type: DnsRecordType,
    pub name: String,
    pub content: String,
}

/// The abstract value of a [`StoredRecord`].
pub struct StoredRecordModel {
    pub id: Seq<char>,
    pub record_type: DnsRecordType,
    pub name: Seq<char>,
    pub content: Seq<char>,
}

impl View for StoredRecord {
    type V = StoredRecordModel;

    open spec fn view(&self) -> StoredRecordModel {
        StoredRecordModel {
            id: self.id@,
            record_type: self.record_type,
            name: self.name@,
            content: self.content@,
        }
    }
}

/// Which provider client to construct, with the values it is built from.
#[derive(Clone, Debug)]
pub enum ProviderPlan {
    /// Cloudflare: zone id and API token.
    Cloudflare { zone_id: String, token: String },
    /// Bunny.net DNS: numeric zone id and account API key.
    Bunny { zone_id: String, key: String },
    /// PowerDNS: zone name and the JSON credential holding `api_url` and
    /// `api_key` (see [`powerdns::powerdns_settings`]).
    PowerDns { zone: String, credential: String },
}

/// Why no provider could be chosen.
#[derive(Clone, Debug)]
pub enum BuildError {
    UnknownProvider { provider: String },
}

/// Message of an unknown provider name.
pub open spec fn unknown_provider_message(provider: Seq<char>) -> Seq<char> {
    "unknown dns provider `"@ + provider + "`"@
}

impl BuildError {
    /// The error text shown to administrators.
    pub fn message(&self) -> (res: String)
        ensures
            match self {
                BuildError::UnknownProvider { provider } => res@ == unknown_provider_message(
                    provider@,
                ),
            },
    {
        match self {
            BuildError::UnknownProvider { provider } => {
                let mut text = chars_of("unknown dns provider `");
                let name = chars_of(provider.as_str());
                extend_chars(&mut text, &name);
                let tick = chars_of("`");
                extend_chars(&mut text, &tick);
                string_of(&text)
            },
        }
    }
}

/// Chooses the provider client for a provider name: `cloudflare`, `bunny`
/// or `powerdns`; any other name is refused.
pub fn build(provider: &str, zone_id: &str, credential: &str) -> (res: Result<
    ProviderPlan,
    BuildError,
>)
    ensures
        provider@ == "cloudflare"@ ==> (res matches Ok(ProviderPlan::Cloudflare { zone_id: z, token: t })
            && z@ == zone_id@ && t@ == credential@),
        provider@ == "bunny"@ ==> (res matches Ok(ProviderPlan::Bunny { zone_id: z, key: k })
            && z@ == zone_id@ && k@ == credential@),
        provider@ == "powerdns"@ ==> (res matches Ok(ProviderPlan::PowerDns { zone: z, credential: c })
            && z@ == zone_id@ && c@ == credential@),
        (provider@ != "cloudflare"@ && provider@ != "bunny"@ && provider@ != "powerdns"@) ==> (
        res matches Err(BuildError::UnknownProvider { provider: p }) && p@ == provider@),
{
    proof {
        reveal_strlit("cloudflare");
        reveal_strlit("bunny");
        reveal_strlit("powerdns");
        assert("bunny"@.len() == 5);
        assert("cloudflare"@.len() == 10);
        assert("powerdns"@.len() == 8);
    }
    let name = chars_of(provider);
    if chars_eq(&name, &chars_of("cloudflare")) {
        Ok(ProviderPlan::Cloudflare { zone_id: zone_id.to_string(), token: credential.to_string() })
    } else if chars_eq(&name, &chars_of("bunny")) {
        Ok(ProviderPlan::Bunny { zone_id: zone_id.to_string(), key: credential.to_string() })
    } else if chars_eq(&name, &chars_of("powerdns")) {
        Ok(ProviderPlan::PowerDns { zone: zone_id.to_string(), credential: credential.to_string() })
    } else {
        Err(BuildError::UnknownProvider { provider: provider.to_string() })
    }
}

} // verus!

verus! {

use crate::text::join;

/// Whether a provider's answer to a record deletion counts as success: any
/// 2xx status, and 404 - a record that no longer exists is deleted.
pub fn deletion_succeeded(status: u16) -> (res: bool)
    ensures
        res == (status == 404 || (200 <= status && status < 300)),
{
    status == 404 || (200 <= status && status < 300)
}

/// Message of a failed provider request: the provider's own message, or the
/// HTTP status when it gave none.
pub open spec fn spec_failure_message(provider: Seq<char>, detail: Seq<char>, status: Seq<char>) -> Seq<char> {
    provider + ": "@ + if detail.len() == 0 {
        "request failed with status "@ + status
    } else {
        detail
    }
}

/// Message of a failed provider request, e.g. `cloudflare: zone not found`
/// or `bunny: request failed with status 401 Unauthorized`.
pub fn failure_message(provider: &str, detail: &str, status: &str) -> (res: String)
    ensures
        res@ == spec_failure_message(provider@, detail@, status@),
{
    let mut text = chars_of(provider);
    extend_chars(&mut text, &chars_of(": "));
    let detail_chars = chars_of(detail);
    if detail_chars.len() == 0 {
        extend_chars(&mut text, &chars_of("request failed with status "));
        extend_chars(&mut text, &chars_of(status));
    } else {
        extend_chars(&mut text, &detail_chars);
    }
    string_of(&text)
}

/// The views of a list of strings.
pub open spec fn message_views(v: Seq<String>) -> Seq<Seq<char>> {
    v.map_values(|s: String| s@)
}

/// Error messages joined by `, ` (Cloudflare reports a list of errors).
pub fn join_messages(messages: &[String]) -> (res: String)
    ensures
        res@ == join(message_views(messages@), ", "@),
{
    proof {
        reveal_strlit(", ");
    }
    let sep = chars_of(", ");
    let mut text: Vec<char> = Vec::new();
    let mut i: usize = 0;
    while i < messages.len()
        invariant
            i <= messages@.len(),
            sep@ == ", "@,
            text@ == join(message_views(messages@).take(i as int), ", "@),
        decreases messages@.len() - i,
    {
        let ghost all = message_views(messages@);
        let ghost before = text@;
        if i > 0 {
            extend_chars(&mut text, &sep);
        }
        extend_chars(&mut text, &chars_of(messages[i].as_str()));
        proof {
            assert(all.take(i + 1).drop_last() == all.take(i as int));
            assert(all.take(i + 1).last() == messages@[i as int]@);
            if i == 0 {
                assert(all.take(1) == seq![all[0]]);
                assert(text@ =~= all[0]);
            } else {
                assert(text@ =~= before + ", "@ + all[i as int]);
            }
        }
        i = i + 1;
    }
    assert(message_views(messages@).take(messages@.len() as int) == message_views(messages@));
    string_of(&text)
}

} // verus!
