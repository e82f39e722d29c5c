//! The extension's settings: name blacklist, default limit and DNS record
//! templates (with per-egg overrides).
use vstd::prelude::*;
use crate::providers::DnsRecordType;

verus! {

/// A template describing one DNS record to create when a subdomain is added.
/// Strings may contain `{name}`, `{domain}`, `{fqdn}`, `{ip}`, `{port}`,
/// `{server}` and `{server_name}` placeholders, rendered at creation time.
/// A `ttl` of `0` means the provider's "auto" value.
#[derive(Clone, Debug)]
pub enum RecordTemplate {
    /// Creates an A, AAAA or CNAME record depending on what the resolved
    /// allocation target is (IPv4, IPv6 or hostname).
    Address { name: String, proxied: bool, ttl: u32 },
    /// Creates an SRV record named `{service}.{protocol}.{name}.{domain}`
    /// pointing at `{fqdn}` on the allocation's port.
    Srv { service: String, protocol: String, priority: u16, weight: u16, ttl: u32 },
    /// Creates a record of an explicit type with a rendered name and content.
    Custom { record_type: DnsRecordType, name: String, content: String, ttl: u32 },
}

/// Per-egg record template overrides.
#[derive(Clone, Debug)]
pub struct EggRecords {
    pub egg_uuid: u128,
    pub records: Vec<RecordTemplate>,
}

/// The extension's settings.
#[derive(Clone, Debug)]
pub struct ExtensionSettingsData {
    /// Regexes matched case-insensitively against requested subdomain names.
    pub blacklist: Vec<String>,
    /// Subdomain limit applied to new servers when the create payload does
    /// not carry `feature_limits.subdomains`.
    pub default_limit: i32,
    /// Record templates used for eggs without an override.
    pub default_records: Vec<RecordTemplate>,
    /// Per-egg record template overrides.
    pub egg_records: Vec<EggRecords>,
}

/// Index of the first override for `egg` in `overrides`, if any.
pub open spec fn first_override(overrides: Seq<EggRecords>, egg: u128) -> Option<int>
    decreases overrides.len(),
{
    if overrides.len() == 0 {
        None
    } else if overrides[0].egg_uuid == egg {
        Some(0)
    } else {
        match first_override(overrides.subrange(1, overrides.len() as int), egg) {
            Some(i) => Some(i + 1),
            None => None,
        }
    }
}

/// The templates that apply to an egg: its first override, else the defaults.
pub open spec fn templates_for_egg(settings: ExtensionSettingsData, egg: u128) -> Seq<
    RecordTemplate,
> {
    match first_override(settings.egg_records@, egg) {
        Some(i) => settings.egg_records@[i].records@,
        None => settings.default_records@,
    }
}

/// `first_override` finds the first entry whose egg matches.
pub proof fn lemma_first_override(overrides: Seq<EggRecords>, egg: u128)
    ensures
        match first_override(overrides, egg) {
            Some(i) => 0 <= i < overrides.len() && overrides[i].egg_uuid == egg && forall|
                j: int,
            | 0 <= j < i ==> overrides[j].egg_uuid != egg,
            None => forall|j: int| 0 <= j < overrides.len() ==> overrides[j].egg_uuid != egg,
        },
    decreases overrides.len(),
{
    if overrides.len() > 0 {
        let rest = overrides.subrange(1, overrides.len() as int);
        lemma_first_override(rest, egg);
        if overrides[0].egg_uuid != egg {
            assert forall|j: int| 1 <= j < overrides.len() implies overrides[j] == rest[j - 1] by {}
        }
    }
}

impl ExtensionSettingsData {
    /// Record templates for the given egg, falling back to `default_records`.
    pub fn records_for_egg(&self, egg_uuid: u128) -> (res: &[RecordTemplate])
        ensures
            res@ == templates_for_egg(*self, egg_uuid),
    {
        let mut i: usize = 0;
        while i < self.egg_records.len()
            invariant
                i <= self.egg_records.len(),
                forall|j: int| 0 <= j < i ==> self.egg_records@[j].egg_uuid != egg_uuid,
            decreases self.egg_records.len() - i,
        {
            if self.egg_records[i].egg_uuid == egg_uuid {
                proof {
                    lemma_first_override(self.egg_records@, egg_uuid);
                }
                return self.egg_records[i].records.as_slice();
            }
            i = i + 1;
        }
        proof {
            lemma_first_override(self.egg_records@, egg_uuid);
        }
        self.default_records.as_slice()
    }
}

} // verus!

verus! {

/// The blacklist of fresh settings: `www`, `mail`, `admin` and `panel`.
pub open spec fn is_default_blacklist(blacklist: Seq<String>) -> bool {
    &&& blacklist.len() == 4
    &&& blacklist[0]@ == "^www$"@
    &&& blacklist[1]@ == "^mail$"@
    &&& blacklist[2]@ == "^admin$"@
    &&& blacklist[3]@ == "^panel$"@
}

/// The record templates of fresh settings: an address record plus a
/// `_minecraft._tcp` SRV record.
pub open spec fn is_default_records(records: Seq<RecordTemplate>) -> bool {
    &&& records.len() == 2
    &&& records[0] matches RecordTemplate::Address { name, proxied, ttl } && name@ == "{name}"@
        && !proxied && ttl == 0
    &&& records[1] matches RecordTemplate::Srv { service, protocol, priority, weight, ttl }
        && service@ == "_minecraft"@ && protocol@ == "_tcp"@ && priority == 0 && weight == 5
        && ttl == 0
}

impl Default for ExtensionSettingsData {
    /// No subdomains by default; `www`, `mail`, `admin` and `panel` are
    /// blacklisted; an address record plus a `_minecraft._tcp` SRV record.
    fn default() -> (res: Self)
        ensures
            is_default_blacklist(res.blacklist@),
            res.default_limit == 0,
            is_default_records(res.default_records@),
            res.egg_records@.len() == 0,
    {
        ExtensionSettingsData {
            blacklist: vec![
                "^www$".to_string(),
                "^mail$".to_string(),
                "^admin$".to_string(),
                "^panel$".to_string(),
            ],
            default_limit: 0,
            default_records: vec![
                RecordTemplate::Address { name: "{name}".to_string(), proxied: false, ttl: 0 },
                RecordTemplate::Srv {
                    service: "_minecraft".to_string(),
                    protocol: "_tcp".to_string(),
                    priority: 0,
                    weight: 5,
                    ttl: 0,
                },
            ],
            egg_records: Vec::new(),
        }
    }
}

/// Reads stored settings: every field that was stored and could be read is
/// taken, the others fall back to their defaults.
#[derive(Clone, Copy, Debug, Default)]
pub struct ExtensionSettingsDataDeserializer;

impl ExtensionSettingsDataDeserializer {
    /// Assembles settings from the fields that were read (`None` for a field
    /// that is missing or unreadable).
    pub fn settings_from_fields(
        &self,
        blacklist: Option<Vec<String>>,
        default_limit: Option<i32>,
        default_records: Option<Vec<RecordTemplate>>,
        egg_records: Option<Vec<EggRecords>>,
    ) -> (res: ExtensionSettingsData)
        ensures
            match blacklist {
                Some(b) => res.blacklist@ == b@,
                None => is_default_blacklist(res.blacklist@),
            },
            match default_limit {
                Some(l) => res.default_limit == l,
                None => res.default_limit == 0,
            },
            match default_records {
                Some(r) => res.default_records@ == r@,
                None => is_default_records(res.default_records@),
            },
            match egg_records {
                Some(e) => res.egg_records@ == e@,
                None => res.egg_records@.len() == 0,
            },
    {
        let defaults = ExtensionSettingsData::default();
        ExtensionSettingsData {
            blacklist: match blacklist {
                Some(b) => b,
                None => defaults.blacklist,
            },
            default_limit: match default_limit {
                Some(l) => l,
                None => defaults.default_limit,
            },
            default_records: match default_records {
                Some(r) => r,
                None => defaults.default_records,
            },
            egg_records: match egg_records {
                Some(e) => e,
                None => defaults.egg_records,
            },
        }
    }
}

} // verus!
