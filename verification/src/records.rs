//! Rendering record templates into provider-ready DNS records.
use vstd::prelude::*;
use crate::ids::{uuid_chars, uuid_text};
use crate::ipaddr::{ip_text, ipv4_chars, ipv4_text, IpValue, Ipv6Value};
use crate::providers::{DnsRecordInput, DnsRecordType, RecordInputModel};
use crate::settings::RecordTemplate;
use crate::text::{
    chars_eq, chars_of, ends_with, ends_with_exec, extend_chars, i32_decimal, int_decimal,
    replace_all, replace_chars, string_of, trim, trim_end_char, trim_end_matches_char, trim_ws,
};

verus! {

/// Values available to `{placeholder}` expansion in record templates.
#[derive(Clone, Debug)]
pub struct Vars {
    /// Subdomain label, e.g. `mc`.
    pub name: String,
    /// Zone domain, e.g. `example.com`.
    pub domain: String,
    /// Resolved allocation target (ip or hostname).
    pub ip: String,
    /// Allocation port.
    pub port: i32,
    /// Server uuid.
    pub server: u128,
    /// Server name.
    pub server_name: String,
}

/// The abstract value of [`Vars`].
pub struct VarsModel {
    pub name: Seq<char>,
    pub domain: Seq<char>,
    pub ip: Seq<char>,
    pub port: i32,
    pub server: u128,
    pub server_name: Seq<char>,
}

impl View for Vars {
    type V = VarsModel;

    open spec fn view(&self) -> VarsModel {
        VarsModel {
            name: self.name@,
            domain: self.domain@,
            ip: self.ip@,
            port: self.port,
            server: self.server,
            server_name: self.server_name@,
        }
    }
}

/// `{name}.{domain}`.
pub open spec fn spec_fqdn(vars: VarsModel) -> Seq<char> {
    vars.name + seq!['.'] + vars.domain
}

/// Template text with every placeholder expanded, in the order `{fqdn}`,
/// `{name}`, `{domain}`, `{ip}`, `{port}`, `{server}`, `{server_name}`.
pub open spec fn spec_render(template: Seq<char>, vars: VarsModel) -> Seq<char> {
    let s1 = replace_all(template, "{fqdn}"@, spec_fqdn(vars));
    let s2 = replace_all(s1, "{name}"@, vars.name);
    let s3 = replace_all(s2, "{domain}"@, vars.domain);
    let s4 = replace_all(s3, "{ip}"@, vars.ip);
    let s5 = replace_all(s4, "{port}"@, int_decimal(vars.port as int));
    let s6 = replace_all(s5, "{server}"@, uuid_text(vars.server));
    replace_all(s6, "{server_name}"@, vars.server_name)
}

impl Vars {
    /// `{name}.{domain}`.
    pub fn fqdn(&self) -> (res: String)
        ensures
            res@ == spec_fqdn(self@),
    {
        let mut text = chars_of(self.name.as_str());
        text.push('.');
        let domain = chars_of(self.domain.as_str());
        extend_chars(&mut text, &domain);
        string_of(&text)
    }
}

/// Expands `{name}`, `{domain}`, `{fqdn}`, `{ip}`, `{port}`, `{server}` and
/// `{server_name}` placeholders in a template string.
pub fn render(template: &str, vars: &Vars) -> (res: String)
    ensures
        res@ == spec_render(template@, vars@),
{
    string_of(&render_chars(&chars_of(template), vars))
}

/// [`render`] over characters.
pub fn render_chars(template: &[char], vars: &Vars) -> (res: Vec<char>)
    ensures
        res@ == spec_render(template@, vars@),
{
    proof {
        reveal_strlit("{fqdn}");
        reveal_strlit("{name}");
        reveal_strlit("{domain}");
        reveal_strlit("{ip}");
        reveal_strlit("{port}");
        reveal_strlit("{server}");
        reveal_strlit("{server_name}");
    }
    let fqdn = chars_of(vars.fqdn().as_str());
    let s1 = replace_chars(template, &chars_of("{fqdn}"), &fqdn);
    let s2 = replace_chars(&s1, &chars_of("{name}"), &chars_of(vars.name.as_str()));
    let s3 = replace_chars(&s2, &chars_of("{domain}"), &chars_of(vars.domain.as_str()));
    let s4 = replace_chars(&s3, &chars_of("{ip}"), &chars_of(vars.ip.as_str()));
    let s5 = replace_chars(&s4, &chars_of("{port}"), &i32_decimal(vars.port));
    let s6 = replace_chars(&s5, &chars_of("{server}"), &uuid_chars(vars.server));
    replace_chars(&s6, &chars_of("{server_name}"), &chars_of(vars.server_name.as_str()))
}

/// What an `address` record should point at for a given allocation.
#[derive(Clone, PartialEq, Eq, Debug)]
pub enum Target {
    Ipv4(u32),
    Ipv6(Ipv6Value),
    Hostname(String),
}

/// The abstract value of a [`Target`].
pub enum TargetModel {
    Ipv4(u32),
    Ipv6(u128, Seq<char>),
    Hostname(Seq<char>),
}

impl View for Target {
    type V = TargetModel;

    open spec fn view(&self) -> TargetModel {
        match self {
            Target::Ipv4(v) => TargetModel::Ipv4(*v),
            Target::Ipv6(v) => TargetModel::Ipv6(v.bits, v.text@),
            Target::Hostname(h) => TargetModel::Hostname(h@),
        }
    }
}

/// Record type of an address record for a target.
pub open spec fn target_record_type(t: TargetModel) -> DnsRecordType {
    match t {
        TargetModel::Ipv4(_) => DnsRecordType::A,
        TargetModel::Ipv6(_, _) => DnsRecordType::AAAA,
        TargetModel::Hostname(_) => DnsRecordType::CNAME,
    }
}

/// Content of an address record for a target.
pub open spec fn target_content(t: TargetModel) -> Seq<char> {
    match t {
        TargetModel::Ipv4(v) => ipv4_text(v),
        TargetModel::Ipv6(_, text) => text,
        TargetModel::Hostname(h) => h,
    }
}

impl Target {
    pub fn record_type(&self) -> (res: DnsRecordType)
        ensures
            res == target_record_type(self@),
    {
        match self {
            Target::Ipv4(_) => DnsRecordType::A,
            Target::Ipv6(_) => DnsRecordType::AAAA,
            Target::Hostname(_) => DnsRecordType::CNAME,
        }
    }

    pub fn content(&self) -> (res: String)
        ensures
            res@ == target_content(self@),
    {
        match self {
            Target::Ipv4(v) => string_of(&ipv4_chars(*v)),
            Target::Ipv6(v) => v.text.clone(),
            Target::Hostname(h) => h.clone(),
        }
    }
}

/// Why no target could be resolved.
#[derive(Clone, Copy, PartialEq, Eq, Structural, Debug)]
pub enum TargetError {
    /// The allocation's address is unspecified and it has no alias.
    NoPublicAddress,
}

impl TargetError {
    /// The error text shown to users (with status 400).
    pub fn message(&self) -> (res: String)
        ensures
            res@ == "allocation has no public address"@,
    {
        "allocation has no public address".to_string()
    }
}

/// An allocation alias trimmed of white space and trailing dots; `None`
/// when nothing is left.
pub open spec fn cleaned_alias(alias: Option<Seq<char>>) -> Option<Seq<char>> {
    match alias {
        Some(a) => {
            let c = trim_end_char(trim_ws(a), '.');
            if c.len() > 0 {
                Some(c)
            } else {
                None
            }
        },
        None => None,
    }
}

/// The view of an optional string argument.
pub open spec fn opt_view(s: Option<&str>) -> Option<Seq<char>> {
    match s {
        Some(t) => Some(t@),
        None => None,
    }
}

/// The target an allocation resolves to: a non-empty cleaned alias wins
/// (an address if it reads as one, else a hostname); otherwise the
/// allocation's own address unless it is unspecified.
pub open spec fn spec_resolve(ip: IpValue, alias: Option<Seq<char>>, alias_reading: Option<IpValue>) -> Option<TargetModel> {
    match cleaned_alias(alias) {
        Some(c) => match alias_reading {
            Some(IpValue::V4(v)) => Some(TargetModel::Ipv4(v)),
            Some(IpValue::V6(v)) => Some(TargetModel::Ipv6(v.bits, v.text@)),
            None => Some(TargetModel::Hostname(c)),
        },
        None => match ip {
            IpValue::V4(v) => if v != 0 { Some(TargetModel::Ipv4(v)) } else { None },
            IpValue::V6(v) => if v.bits != 0 { Some(TargetModel::Ipv6(v.bits, v.text@)) } else { None },
        },
    }
}

/// Trims white space and trailing dots off an alias; `None` when nothing is
/// left. The result is what has to be read as an address (with
/// `IpAddr::from_str`) before calling [`resolve_target_parts`].
pub fn clean_alias(alias: Option<&str>) -> (res: Option<String>)
    ensures
        match res {
            Some(c) => cleaned_alias(opt_view(alias)) == Some(c@),
            None => cleaned_alias(opt_view(alias)) is None,
        },
{
    match alias {
        Some(a) => {
            let trimmed = trim(&chars_of(a));
            let c = trim_end_matches_char(&trimmed, '.');
            if c.len() > 0 {
                Some(string_of(&c))
            } else {
                None
            }
        },
        None => None,
    }
}

/// Resolves the DNS target for an allocation: `ip_alias` (trimmed, trailing
/// dots stripped) wins over the raw `ip`. `alias_reading` is what
/// `IpAddr::from_str` gives for the cleaned alias (see [`clean_alias`]):
/// addresses become A/AAAA records, anything else becomes a CNAME. An
/// unspecified IP with no alias is an error.
pub fn resolve_target_parts(ip: &IpValue, ip_alias: Option<&str>, alias_reading: Option<IpValue>) -> (res: Result<Target, TargetError>)
    ensures
        match spec_resolve(*ip, opt_view(ip_alias), alias_reading) {
            Some(t) => res matches Ok(r) && r@ == t,
            None => res == Err::<Target, TargetError>(TargetError::NoPublicAddress),
        },
{
    match clean_alias(ip_alias) {
        Some(alias) => match alias_reading {
            Some(IpValue::V4(v)) => Ok(Target::Ipv4(v)),
            Some(IpValue::V6(v)) => Ok(Target::Ipv6(v)),
            None => Ok(Target::Hostname(alias)),
        },
        None => match ip {
            IpValue::V4(v) => if *v != 0 {
                Ok(Target::Ipv4(*v))
            } else {
                Err(TargetError::NoPublicAddress)
            },
            IpValue::V6(v) => if v.bits != 0 {
                Ok(Target::Ipv6(v.duplicate()))
            } else {
                Err(TargetError::NoPublicAddress)
            },
        },
    }
}

} // verus!

verus! {

/// Joins a rendered (possibly already qualified) record name onto the zone
/// domain: trailing dots are dropped, `@` or nothing means the apex, a name
/// that already ends in the domain is kept, anything else gets `.{domain}`.
pub open spec fn spec_fqdn_name(rendered: Seq<char>, domain: Seq<char>) -> Seq<char> {
    let r = trim_end_char(rendered, '.');
    if r.len() == 0 || r == seq!['@'] {
        domain
    } else if r == domain || ends_with(r, seq!['.'] + domain) {
        r
    } else {
        r + seq!['.'] + domain
    }
}

/// Joins a rendered (possibly already qualified) record name onto the zone
/// domain into an FQDN.
pub fn fqdn_name(rendered: &str, domain: &str) -> (res: String)
    ensures
        res@ == spec_fqdn_name(rendered@, domain@),
{
    string_of(&fqdn_name_chars(&chars_of(rendered), &chars_of(domain)))
}

/// [`fqdn_name`] over characters.
pub fn fqdn_name_chars(rendered: &[char], domain: &[char]) -> (res: Vec<char>)
    ensures
        res@ == spec_fqdn_name(rendered@, domain@),
{
    let r = trim_end_matches_char(rendered, '.');
    if r.len() == 0 || (r.len() == 1 && r[0] == '@') {
        proof {
            if r.len() == 1 && r[0] == '@' {
                assert(r@ =~= seq!['@']);
            }
        }
        let mut out: Vec<char> = Vec::new();
        extend_chars(&mut out, domain);
        return out;
    }
    assert(r@ != seq!['@']) by {
        if r@.len() == 1 {
            assert(r@[0] != '@');
        }
    }
    let mut dotted = vec!['.'];
    extend_chars(&mut dotted, domain);
    assert(dotted@ == seq!['.'] + domain@);
    if chars_eq(&r, domain) || ends_with_exec(&r, &dotted) {
        r
    } else {
        let ghost rr = r@;
        let mut out = r;
        extend_chars(&mut out, &dotted);
        assert(out@ =~= rr + seq!['.'] + domain@);
        out
    }
}

/// The SRV port for an allocation port: the port itself when it fits in
/// 16 bits, else 0.
pub open spec fn srv_port(port: i32) -> u16 {
    if 0 <= port <= 65535 {
        port as u16
    } else {
        0
    }
}

/// A custom template of type SRV, which is refused.
pub open spec fn is_custom_srv(t: RecordTemplate) -> bool {
    t matches RecordTemplate::Custom { record_type: DnsRecordType::SRV, .. }
}

/// The record a template renders to.
pub open spec fn spec_template_record(
    t: RecordTemplate,
    vars: VarsModel,
    target: TargetModel,
) -> RecordInputModel {
    match t {
        RecordTemplate::Address { name, proxied, ttl } => RecordInputModel {
            record_type: target_record_type(target),
            name: spec_fqdn_name(spec_render(name@, vars), vars.domain),
            content: target_content(target),
            ttl: ttl,
            proxied: proxied,
            priority: 0,
            weight: 0,
            port: 0,
        },
        RecordTemplate::Srv { service, protocol, priority, weight, ttl } => RecordInputModel {
            record_type: DnsRecordType::SRV,
            name: spec_render(service@ + seq!['.'] + protocol@ + ".{name}.{domain}"@, vars),
            content: spec_fqdn(vars),
            ttl: ttl,
            proxied: false,
            priority: priority,
            weight: weight,
            port: srv_port(vars.port),
        },
        RecordTemplate::Custom { record_type, name, content, ttl } => RecordInputModel {
            record_type: record_type,
            name: spec_fqdn_name(spec_render(name@, vars), vars.domain),
            content: spec_render(content@, vars),
            ttl: ttl,
            proxied: false,
            priority: 0,
            weight: 0,
            port: 0,
        },
    }
}

/// Why templates could not be rendered.
#[derive(Clone, Copy, PartialEq, Eq, Structural, Debug)]
pub enum RenderError {
    /// A custom template asked for an SRV record.
    CustomSrv,
}

impl RenderError {
    /// The error text shown to users (with status 400).
    pub fn message(&self) -> (res: String)
        ensures
            res@ == "custom records cannot be of type SRV; use the `srv` template kind"@,
    {
        "custom records cannot be of type SRV; use the `srv` template kind".to_string()
    }
}

/// Renders one template (not a custom SRV one).
fn render_template(t: &RecordTemplate, vars: &Vars, target: &Target) -> (res: DnsRecordInput)
    requires
        !is_custom_srv(*t),
    ensures
        res@ == spec_template_record(*t, vars@, target@),
{
    match t {
        RecordTemplate::Address { name, proxied, ttl } => {
            let rendered = render_chars(&chars_of(name.as_str()), vars);
            let full = fqdn_name_chars(&rendered, &chars_of(vars.domain.as_str()));
            DnsRecordInput {
                record_type: target.record_type(),
                name: string_of(&full),
                content: target.content(),
                ttl: *ttl,
                proxied: *proxied,
                priority: 0,
                weight: 0,
                port: 0,
            }
        },
        RecordTemplate::Srv { service, protocol, priority, weight, ttl } => {
            let mut pattern = chars_of(service.as_str());
            pattern.push('.');
            extend_chars(&mut pattern, &chars_of(protocol.as_str()));
            extend_chars(&mut pattern, &chars_of(".{name}.{domain}"));
            assert(pattern@ =~= service@ + seq!['.'] + protocol@ + ".{name}.{domain}"@);
            let port: u16 = if 0 <= vars.port && vars.port <= 65535 {
                vars.port as u16
            } else {
                0
            };
            DnsRecordInput {
                record_type: DnsRecordType::SRV,
                name: string_of(&render_chars(&pattern, vars)),
                content: vars.fqdn(),
                ttl: *ttl,
                proxied: false,
                priority: *priority,
                weight: *weight,
                port: port,
            }
        },
        RecordTemplate::Custom { record_type, name, content, ttl } => {
            let rendered = render_chars(&chars_of(name.as_str()), vars);
            let full = fqdn_name_chars(&rendered, &chars_of(vars.domain.as_str()));
            DnsRecordInput {
                record_type: *record_type,
                name: string_of(&full),
                content: render(content.as_str(), vars),
                ttl: *ttl,
                proxied: false,
                priority: 0,
                weight: 0,
                port: 0,
            }
        },
    }
}

/// Renders record templates into provider-ready inputs for the given target.
/// A custom template of type SRV fails the whole rendering.
pub fn render_records(templates: &[RecordTemplate], vars: &Vars, target: &Target) -> (res: Result<
    Vec<DnsRecordInput>,
    RenderError,
>)
    ensures
        res is Err <==> exists|i: int| 0 <= i < templates@.len() && is_custom_srv(templates@[i]),
        res matches Err(e) ==> e == RenderError::CustomSrv,
        res matches Ok(records) ==> records@.len() == templates@.len() && forall|i: int|
            0 <= i < templates@.len() ==> #[trigger] records@[i]@ == spec_template_record(
                templates@[i],
                vars@,
                target@,
            ),
{
    let mut records: Vec<DnsRecordInput> = Vec::new();
    let mut i: usize = 0;
    while i < templates.len()
        invariant
            i <= templates.len(),
            records@.len() == i,
            forall|j: int| 0 <= j < i ==> !is_custom_srv(#[trigger] templates@[j]),
            forall|j: int|
                0 <= j < i ==> #[trigger] records@[j]@ == spec_template_record(
                    templates@[j],
                    vars@,
                    target@,
                ),
        decreases templates.len() - i,
    {
        let t = &templates[i];
        if let RecordTemplate::Custom { record_type: DnsRecordType::SRV, .. } = t {
            assert(is_custom_srv(templates@[i as int]));
            return Err(RenderError::CustomSrv);
        }
        let record = render_template(t, vars, target);
        records.push(record);
        i = i + 1;
    }
    Ok(records)
}

} // verus!

verus! {

/// Trimming a character off a sequence that does not end in it changes nothing.
pub proof fn lemma_trim_end_char_noop(s: Seq<char>, c: char)
    requires
        s.len() == 0 || s.last() != c,
    ensures
        trim_end_char(s, c) == s,
{
}

/// Replacing a pattern whose first character never occurs changes nothing.
pub proof fn lemma_replace_absent(s: Seq<char>, pat: Seq<char>, rep: Seq<char>)
    requires
        pat.len() > 0,
        !s.contains(pat[0]),
    ensures
        replace_all(s, pat, rep) == s,
    decreases s.len(),
{
    if s.len() >= pat.len() {
        assert(s.subrange(0, pat.len() as int)[0] == s[0]);
        assert(s[0] != pat[0]) by {
            assert(s.contains(s[0]));
        }
        let rest = s.subrange(1, s.len() as int);
        assert forall|c: char| rest.contains(c) implies s.contains(c) by {
            let k = choose|k: int| 0 <= k < rest.len() && rest[k] == c;
            assert(s[k + 1] == c);
        }
        lemma_replace_absent(rest, pat, rep);
        assert(seq![s[0]] + rest =~= s);
    }
}

/// Law: an address record is proxied exactly when its template asks for it;
/// SRV and custom records are never proxied.
pub proof fn law_proxied_follows_template(t: RecordTemplate, vars: VarsModel, target: TargetModel)
    ensures
        match t {
            RecordTemplate::Address { proxied, .. } => spec_template_record(t, vars, target).proxied
                == proxied,
            _ => !spec_template_record(t, vars, target).proxied,
        },
{
}

/// Law: an address record points at the resolved target and its type
/// follows the target: an IPv4 address gives an A record with the dotted
/// address, an IPv6 address an AAAA record with its text, a hostname a
/// CNAME record to that hostname.
pub proof fn law_address_record_follows_target(
    name: String,
    proxied: bool,
    ttl: u32,
    vars: VarsModel,
    target: TargetModel,
)
    ensures
        ({
            let r = spec_template_record(RecordTemplate::Address { name, proxied, ttl }, vars, target);
            &&& r.ttl == ttl
            &&& match target {
                TargetModel::Ipv4(v) => r.record_type == DnsRecordType::A && r.content == ipv4_text(v),
                TargetModel::Ipv6(_, text) => r.record_type == DnsRecordType::AAAA && r.content == text,
                TargetModel::Hostname(h) => r.record_type == DnsRecordType::CNAME && r.content == h,
            }
        }),
{
}

/// Law: an SRV template gives an SRV record to `{name}.{domain}` on the
/// allocation's port (0 when the port does not fit in 16 bits), with the
/// template's priority, weight and ttl, whatever the target.
pub proof fn law_srv_record_points_at_the_subdomain(
    service: String,
    protocol: String,
    priority: u16,
    weight: u16,
    ttl: u32,
    vars: VarsModel,
    target: TargetModel,
)
    ensures
        ({
            let r = spec_template_record(
                RecordTemplate::Srv { service, protocol, priority, weight, ttl },
                vars,
                target,
            );
            &&& r.record_type == DnsRecordType::SRV
            &&& r.content == vars.name + seq!['.'] + vars.domain
            &&& r.priority == priority
            &&& r.weight == weight
            &&& r.ttl == ttl
            &&& 0 <= vars.port <= 65535 ==> r.port == vars.port
            &&& !(0 <= vars.port <= 65535) ==> r.port == 0
        }),
{
}

/// Law: a custom template keeps its record type and ttl, whatever the
/// target.
pub proof fn law_custom_record_keeps_type_and_ttl(
    record_type: DnsRecordType,
    name: String,
    content: String,
    ttl: u32,
    vars: VarsModel,
    target: TargetModel,
)
    ensures
        ({
            let r = spec_template_record(
                RecordTemplate::Custom { record_type, name, content, ttl },
                vars,
                target,
            );
            &&& r.record_type == record_type
            &&& r.ttl == ttl
        }),
{
}

/// Law: a cleaned, non-empty alias decides the target by how it reads: an
/// IPv4 reading gives that IPv4 address (an A record), an IPv6 reading that
/// IPv6 address (an AAAA record), no reading a hostname (a CNAME record) -
/// whatever the allocation's own address is.
pub proof fn law_alias_reading_decides_target(ip: IpValue, alias: Option<Seq<char>>, reading: Option<IpValue>)
    requires
        cleaned_alias(alias) is Some,
    ensures
        match reading {
            Some(IpValue::V4(v)) => spec_resolve(ip, alias, reading) == Some(TargetModel::Ipv4(v))
                && target_record_type(TargetModel::Ipv4(v)) == DnsRecordType::A,
            Some(IpValue::V6(v)) => spec_resolve(ip, alias, reading) == Some(
                TargetModel::Ipv6(v.bits, v.text@),
            ) && target_record_type(TargetModel::Ipv6(v.bits, v.text@)) == DnsRecordType::AAAA,
            None => spec_resolve(ip, alias, reading) == Some(
                TargetModel::Hostname(cleaned_alias(alias)->0),
            ) && target_record_type(TargetModel::Hostname(cleaned_alias(alias)->0))
                == DnsRecordType::CNAME,
        },
{
}

/// Law: without a usable alias the allocation's own address is the target,
/// unless it is unspecified (`0.0.0.0` or `::`), which resolves to nothing.
pub proof fn law_no_alias_uses_the_address(ip: IpValue, alias: Option<Seq<char>>, reading: Option<IpValue>)
    requires
        cleaned_alias(alias) is None,
    ensures
        match ip {
            IpValue::V4(v) => spec_resolve(ip, alias, reading) == (if v == 0 {
                None
            } else {
                Some(TargetModel::Ipv4(v))
            }),
            IpValue::V6(v) => spec_resolve(ip, alias, reading) == (if v.bits == 0 {
                None
            } else {
                Some(TargetModel::Ipv6(v.bits, v.text@))
            }),
        },
{
}

/// Law: a template without any `{` renders to itself, whatever the values.
pub proof fn law_render_plain_text(template: Seq<char>, vars: VarsModel)
    requires
        !template.contains('{'),
    ensures
        spec_render(template, vars) == template,
{
    reveal_strlit("{fqdn}");
    reveal_strlit("{name}");
    reveal_strlit("{domain}");
    reveal_strlit("{ip}");
    reveal_strlit("{port}");
    reveal_strlit("{server}");
    reveal_strlit("{server_name}");
    lemma_replace_absent(template, "{fqdn}"@, spec_fqdn(vars));
    lemma_replace_absent(template, "{name}"@, vars.name);
    lemma_replace_absent(template, "{domain}"@, vars.domain);
    lemma_replace_absent(template, "{ip}"@, vars.ip);
    lemma_replace_absent(template, "{port}"@, int_decimal(vars.port as int));
    lemma_replace_absent(template, "{server}"@, uuid_text(vars.server));
    lemma_replace_absent(template, "{server_name}"@, vars.server_name);
}

/// Law: for a zone domain that is non-empty and has no trailing dot, the
/// joined name is the domain itself or ends in `.{domain}`.
pub proof fn law_fqdn_name_within_domain(rendered: Seq<char>, domain: Seq<char>)
    requires
        domain.len() > 0,
        domain.last() != '.',
    ensures
        spec_fqdn_name(rendered, domain) == domain || ends_with(
            spec_fqdn_name(rendered, domain),
            seq!['.'] + domain,
        ),
{
    let r = trim_end_char(rendered, '.');
    if !(r.len() == 0 || r == seq!['@']) && !(r == domain || ends_with(r, seq!['.'] + domain)) {
        let f = r + seq!['.'] + domain;
        assert(f.subrange(f.len() - (domain.len() + 1), f.len() as int) =~= seq!['.'] + domain);
    }
}

/// Law: joining is idempotent - a joined name joins to itself again (for a
/// non-empty zone domain without a trailing dot).
pub proof fn law_fqdn_name_idempotent(rendered: Seq<char>, domain: Seq<char>)
    requires
        domain.len() > 0,
        domain.last() != '.',
    ensures
        spec_fqdn_name(spec_fqdn_name(rendered, domain), domain) == spec_fqdn_name(
            rendered,
            domain,
        ),
{
    let f = spec_fqdn_name(rendered, domain);
    law_fqdn_name_within_domain(rendered, domain);
    if f == domain {
        lemma_trim_end_char_noop(domain, '.');
    } else {
        let tail = seq!['.'] + domain;
        assert(f.last() == tail.last());
        assert(f.last() == domain.last());
        lemma_trim_end_char_noop(f, '.');
        assert(f.len() >= 2);
        assert(f != seq!['@']);
    }
}

} // verus!

verus! {

/// The node allocation a subdomain points at: its address, optional alias
/// and port.
#[derive(Clone, Debug)]
pub struct Allocation {
    pub ip: IpValue,
    pub ip_alias: Option<String>,
    pub port: i32,
}

/// The view of an optional string.
pub open spec fn opt_string_view(s: Option<String>) -> Option<Seq<char>> {
    match s {
        Some(t) => Some(t@),
        None => None,
    }
}

/// Resolves the DNS target for an allocation (see [`resolve_target_parts`]);
/// `alias_reading` is what `IpAddr::from_str` gives for the cleaned alias.
pub fn resolve_target(allocation: &Allocation, alias_reading: Option<IpValue>) -> (res: Result<
    Target,
    TargetError,
>)
    ensures
        match spec_resolve(allocation.ip, opt_string_view(allocation.ip_alias), alias_reading) {
            Some(t) => res matches Ok(r) && r@ == t,
            None => res == Err::<Target, TargetError>(TargetError::NoPublicAddress),
        },
{
    match &allocation.ip_alias {
        Some(a) => resolve_target_parts(&allocation.ip, Some(a.as_str()), alias_reading),
        None => resolve_target_parts(&allocation.ip, None, alias_reading),
    }
}

} // verus!
