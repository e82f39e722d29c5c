//! Subdomain operations shared by the server and admin routes: name rules,
//! the checks before a subdomain is created, rendering its records, and the
//! create-with-rollback and delete sequences of DNS record calls.
use vstd::prelude::*;
use crate::blacklist::{is_blacklisted, regex_ci_match, CompiledPattern};
use crate::ipaddr::IpValue;
use crate::providers::{DnsRecordInput, StoredRecord};
use crate::records::{
    is_custom_srv, opt_string_view, render_records, resolve_target, spec_resolve,
    spec_template_record, target_content, Allocation, RenderError, TargetError, Vars, VarsModel,
};
use crate::settings::{templates_for_egg, ExtensionSettingsData};
use crate::text::{chars_of, extend_chars, string_of, to_lowercase, trim, trim_ws, unicode_lowercase};

verus! {

// ---------------------------------------------------------------------------
// Names
// ---------------------------------------------------------------------------
/// A character allowed in a subdomain label.
pub open spec fn label_char(c: char) -> bool {
    ('a' <= c && c <= 'z') || ('0' <= c && c <= '9') || c == '-'
}

/// A single DNS label of 1-63 lowercase letters, digits and dashes that
/// neither starts nor ends with a dash
/// (`^[a-z0-9]([a-z0-9-]{0,61}[a-z0-9])?$`).
pub open spec fn is_dns_label(s: Seq<char>) -> bool {
    &&& 1 <= s.len() <= 63
    &&& forall|i: int| 0 <= i < s.len() ==> label_char(#[trigger] s[i])
    &&& s[0] != '-'
    &&& s.last() != '-'
}

/// Whether a name is a valid subdomain label.
pub fn is_subdomain_label(name: &str) -> (res: bool)
    ensures
        res == is_dns_label(name@),
{
    let s = chars_of(name);
    if s.len() < 1 || s.len() > 63 {
        return false;
    }
    if s[0] == '-' || s[s.len() - 1] == '-' {
        return false;
    }
    let mut i: usize = 0;
    while i < s.len()
        invariant
            i <= s.len(),
            s@ == name@,
            forall|j: int| 0 <= j < i ==> label_char(#[trigger] s@[j]),
        decreases s.len() - i,
    {
        let c = s[i];
        if !(('a' <= c && c <= 'z') || ('0' <= c && c <= '9') || c == '-') {
            return false;
        }
        i = i + 1;
    }
    true
}

/// A requested name as it is checked and stored: trimmed and lowercased.
pub open spec fn normalized_name(name: Seq<char>) -> Seq<char> {
    unicode_lowercase(trim_ws(name))
}

/// Trims and lowercases a requested subdomain name.
pub fn normalize_name(name: &str) -> (res: String)
    ensures
        res@ == normalized_name(name@),
{
    let trimmed = string_of(&trim(&chars_of(name)));
    to_lowercase(trimmed.as_str())
}

// ---------------------------------------------------------------------------
// Errors
// ---------------------------------------------------------------------------
/// Why a subdomain could not be created or re-pointed.
#[derive(Clone, Copy, PartialEq, Eq, Structural, Debug)]
pub enum SubdomainError {
    InvalidName,
    NameNotAllowed,
    LimitReached,
    DomainNotFound,
    DomainGone,
    AllocationNotOnServer,
    NameTaken,
    UsedByReverseProxy,
    NoPublicAddress,
    CustomSrv,
}

/// The HTTP status an error is answered with.
pub open spec fn spec_status(e: SubdomainError) -> u16 {
    match e {
        SubdomainError::NameTaken | SubdomainError::UsedByReverseProxy => 409,
        _ => 400,
    }
}

/// The message an error is answered with.
pub open spec fn spec_message(e: SubdomainError) -> Seq<char> {
    match e {
        SubdomainError::InvalidName =>
            "subdomain name must be 1-63 characters of lowercase letters, numbers and dashes, and may not start or end with a dash"@,
        SubdomainError::NameNotAllowed => "this subdomain name is not allowed"@,
        SubdomainError::LimitReached => "subdomain limit reached for this server"@,
        SubdomainError::DomainNotFound => "domain not found"@,
        SubdomainError::DomainGone => "domain no longer exists"@,
        SubdomainError::AllocationNotOnServer => "allocation does not belong to this server"@,
        SubdomainError::NameTaken => "this subdomain is already taken"@,
        SubdomainError::UsedByReverseProxy => "this name is already used by a reverse proxy"@,
        SubdomainError::NoPublicAddress => "allocation has no public address"@,
        SubdomainError::CustomSrv =>
            "custom records cannot be of type SRV; use the `srv` template kind"@,
    }
}

impl SubdomainError {
    /// HTTP status: 409 for conflicts with existing names, else 400.
    pub fn status(&self) -> (res: u16)
        ensures
            res == spec_status(*self),
    {
        match self {
            SubdomainError::NameTaken | SubdomainError::UsedByReverseProxy => 409,
            _ => 400,
        }
    }

    /// The message shown to the user.
    pub fn message(&self) -> (res: String)
        ensures
            res@ == spec_message(*self),
    {
        let text = match self {
            SubdomainError::InvalidName =>
                "subdomain name must be 1-63 characters of lowercase letters, numbers and dashes, and may not start or end with a dash",
            SubdomainError::NameNotAllowed => "this subdomain name is not allowed",
            SubdomainError::LimitReached => "subdomain limit reached for this server",
            SubdomainError::DomainNotFound => "domain not found",
            SubdomainError::DomainGone => "domain no longer exists",
            SubdomainError::AllocationNotOnServer => "allocation does not belong to this server",
            SubdomainError::NameTaken => "this subdomain is already taken",
            SubdomainError::UsedByReverseProxy => "this name is already used by a reverse proxy",
            SubdomainError::NoPublicAddress => "allocation has no public address",
            SubdomainError::CustomSrv =>
                "custom records cannot be of type SRV; use the `srv` template kind",
        };
        text.to_string()
    }
}

// ---------------------------------------------------------------------------
// Rendering
// ---------------------------------------------------------------------------
/// The values templates are rendered with.
pub open spec fn subdomain_vars(
    name: Seq<char>,
    domain: Seq<char>,
    target_text: Seq<char>,
    port: i32,
    server: u128,
    server_name: Seq<char>,
) -> VarsModel {
    VarsModel { name, domain, ip: target_text, port, server, server_name }
}

/// Renders the egg's record templates for an allocation: the allocation
/// must resolve to a target, and no custom template may be of type SRV.
pub fn render_subdomain_records(
    settings: &ExtensionSettingsData,
    egg_uuid: u128,
    server_uuid: u128,
    server_name: &str,
    name: &str,
    domain: &str,
    allocation: &Allocation,
    alias_reading: Option<IpValue>,
) -> (res: Result<Vec<DnsRecordInput>, SubdomainError>)
    ensures
        match spec_resolve(allocation.ip, opt_string_view(allocation.ip_alias), alias_reading) {
            None => res == Err::<Vec<DnsRecordInput>, SubdomainError>(
                SubdomainError::NoPublicAddress,
            ),
            Some(target) => {
                let templates = templates_for_egg(*settings, egg_uuid);
                let vars = subdomain_vars(
                    name@,
                    domain@,
                    target_content(target),
                    allocation.port,
                    server_uuid,
                    server_name@,
                );
                if exists|i: int| 0 <= i < templates.len() && is_custom_srv(templates[i]) {
                    res == Err::<Vec<DnsRecordInput>, SubdomainError>(SubdomainError::CustomSrv)
                } else {
                    res matches Ok(records) && records@.len() == templates.len() && forall|i: int|
                        0 <= i < templates.len() ==> #[trigger] records@[i]@
                            == spec_template_record(templates[i], vars, target)
                }
            },
        },
{
    let target = match resolve_target(allocation, alias_reading) {
        Ok(t) => t,
        Err(TargetError::NoPublicAddress) => return Err(SubdomainError::NoPublicAddress),
    };
    let vars = Vars {
        name: name.to_string(),
        domain: domain.to_string(),
        ip: target.content(),
        port: allocation.port,
        server: server_uuid,
        server_name: server_name.to_string(),
    };
    let templates = settings.records_for_egg(egg_uuid);
    match render_records(templates, &vars, &target) {
        Ok(records) => Ok(records),
        Err(RenderError::CustomSrv) => Err(SubdomainError::CustomSrv),
    }
}

// ---------------------------------------------------------------------------
// Creation checks
// ---------------------------------------------------------------------------
/// Users are bound by the server's limit and the name blacklist; admins are
/// not.
#[derive(Clone, Copy, PartialEq, Eq, Structural, Debug)]
pub struct CreateOptions {
    /// Users are bound by the server's limit; admins are not.
    pub enforce_limit: bool,
    /// Users can't pick blacklisted names; admins can.
    pub enforce_blacklist: bool,
}

/// The domain a subdomain is requested under, as far as the checks need it.
#[derive(Clone, Debug)]
pub struct DomainStatus {
    pub enabled: bool,
    pub domain: String,
}

/// Where a creation stands.
#[derive(Clone, Copy, PartialEq, Eq, Structural, Debug)]
pub enum CreateStage {
    Blacklist,
    Limit,
    Domain,
    Allocation,
    Taken,
    ReverseProxy,
    Ready,
    Stopped,
}

/// What the caller found out for the last action.
pub enum CreateEvent {
    /// The compiled blacklist from the settings.
    Blacklist(Vec<CompiledPattern>),
    /// The server's number of subdomains and its limit.
    SubdomainCount { count: i64, limit: i32 },
    /// The requested domain, if it exists.
    Domain(Option<DomainStatus>),
    /// Whether the allocation belongs to the server.
    Allocation { belongs: bool },
    /// Whether the name is taken under the domain.
    Taken(bool),
    /// Whether the Reverse Proxy Manager serves the FQDN.
    ReverseProxy(bool),
}

/// What the caller has to do next.
#[derive(Clone, Debug)]
pub enum CreateAction {
    /// Load the settings and compile the blacklist.
    LoadBlacklist,
    /// Count the server's subdomains and read its limit.
    CountSubdomains,
    /// Look the domain up.
    LoadDomain,
    /// Look the allocation up on the server.
    LoadAllocation,
    /// Look for an existing subdomain with this name under the domain.
    CheckTaken { name: String },
    /// Ask whether a reverse proxy serves this FQDN.
    CheckReverseProxy { fqdn: String },
    /// All checks passed: render the records for this name.
    Render { name: String },
    /// Refuse the request.
    Reject(SubdomainError),
}

/// The checks before a subdomain is created, in the order the service makes
/// them: name, blacklist, limit, domain, allocation, name taken, reverse
/// proxy.
pub struct CreateFlow {
    pub options: CreateOptions,
    /// The normalized name.
    pub name: String,
    pub stage: CreateStage,
    /// The domain name, once the domain was found.
    pub domain: String,
}

/// A subdomain row to insert once its records exist.
#[derive(Clone, Debug)]
pub struct NewSubdomain {
    pub server_uuid: u128,
    pub domain_uuid: u128,
    pub allocation_uuid: Option<u128>,
    pub name: String,
    pub records: Vec<StoredRecord>,
}

/// The stage after the name check.
pub open spec fn first_stage(options: CreateOptions) -> CreateStage {
    if options.enforce_blacklist {
        CreateStage::Blacklist
    } else if options.enforce_limit {
        CreateStage::Limit
    } else {
        CreateStage::Domain
    }
}

/// The stage after the blacklist check.
pub open spec fn after_blacklist(options: CreateOptions) -> CreateStage {
    if options.enforce_limit {
        CreateStage::Limit
    } else {
        CreateStage::Domain
    }
}

/// The action that asks for what a stage needs.
pub open spec fn stage_action_is(stage: CreateStage, a: CreateAction, name: Seq<char>, fqdn: Seq<char>) -> bool {
    match stage {
        CreateStage::Blacklist => a is LoadBlacklist,
        CreateStage::Limit => a is CountSubdomains,
        CreateStage::Domain => a is LoadDomain,
        CreateStage::Allocation => a is LoadAllocation,
        CreateStage::Taken => a matches CreateAction::CheckTaken { name: n } && n@ == name,
        CreateStage::ReverseProxy => a matches CreateAction::CheckReverseProxy { fqdn: f }
            && f@ == fqdn,
        CreateStage::Ready => a matches CreateAction::Render { name: n } && n@ == name,
        CreateStage::Stopped => a is Reject,
    }
}

/// The event that answers a stage's action.
pub open spec fn answers(stage: CreateStage, e: &CreateEvent) -> bool {
    match stage {
        CreateStage::Blacklist => e is Blacklist,
        CreateStage::Limit => e is SubdomainCount,
        CreateStage::Domain => e is Domain,
        CreateStage::Allocation => e is Allocation,
        CreateStage::Taken => e is Taken,
        CreateStage::ReverseProxy => e is ReverseProxy,
        _ => false,
    }
}

/// Whether a name matches some pattern of a blacklist.
pub open spec fn blacklisted(patterns: Seq<CompiledPattern>, name: Seq<char>) -> bool {
    exists|i: int| 0 <= i < patterns.len() && regex_ci_match(#[trigger] patterns[i].spec_source(), name)
}

/// The blacklist and limit stages are only ever entered when the options
/// enforce them.
pub open spec fn checks_enforced(flow: CreateFlow) -> bool {
    &&& flow.stage == CreateStage::Blacklist ==> flow.options.enforce_blacklist
    &&& flow.stage == CreateStage::Limit ==> flow.options.enforce_limit
}

/// Law: a flow that does not enforce the blacklist or the limit never takes
/// in a blacklist or a subdomain count - admins are bound by neither, so
/// they are never refused for a blacklisted name or a reached limit.
pub proof fn law_unenforced_checks_never_run(flow: CreateFlow, event: CreateEvent)
    requires
        checks_enforced(flow),
        answers(flow.stage, &event),
    ensures
        event is Blacklist ==> flow.options.enforce_blacklist,
        event is SubdomainCount ==> flow.options.enforce_limit,
{
}

/// Law: records are only ever rendered for a name that passed the name
/// check - a flow that has not stopped holds a valid DNS label, and its
/// `Render` action carries that name.
pub proof fn law_rendered_names_are_labels(flow: CreateFlow, a: CreateAction)
    requires
        flow.stage != CreateStage::Stopped ==> is_dns_label(flow.name@),
        stage_action_is(flow.stage, a, flow.name@, flow.spec_fqdn()),
    ensures
        a matches CreateAction::Render { name } ==> is_dns_label(name@),
{
}

/// Law: a name that any pattern of the blacklist matches - the first, the
/// last or one in between - is blacklisted.
pub proof fn law_any_matching_pattern_blacklists(patterns: Seq<CompiledPattern>, name: Seq<char>, i: int)
    requires
        0 <= i < patterns.len(),
        regex_ci_match(patterns[i].spec_source(), name),
    ensures
        blacklisted(patterns, name),
{
}

/// Law: a name that no pattern of the blacklist matches is not blacklisted.
pub proof fn law_unmatched_name_is_allowed(patterns: Seq<CompiledPattern>, name: Seq<char>)
    requires
        forall|i: int| 0 <= i < patterns.len() ==> !regex_ci_match(#[trigger] patterns[i].spec_source(), name),
    ensures
        !blacklisted(patterns, name),
{
}

impl CreateFlow {
    /// `{name}.{domain}` of the flow.
    pub open spec fn spec_fqdn(&self) -> Seq<char> {
        self.name@ + seq!['.'] + self.domain@
    }

    /// Starts the checks for a requested name: the normalized name must be a
    /// DNS label; the first lookup depends on what is enforced.
    pub fn start(name: &str, options: CreateOptions) -> (res: (CreateFlow, CreateAction))
        ensures
            res.0.options == options,
            res.0.name@ == normalized_name(name@),
            is_dns_label(normalized_name(name@)) ==> res.0.stage == first_stage(options),
            !is_dns_label(normalized_name(name@)) ==> res.0.stage == CreateStage::Stopped
                && res.1 matches CreateAction::Reject(SubdomainError::InvalidName),
            stage_action_is(res.0.stage, res.1, res.0.name@, res.0.spec_fqdn()),
            checks_enforced(res.0),
            res.0.stage != CreateStage::Stopped ==> is_dns_label(res.0.name@),
    {
        let normalized = normalize_name(name);
        if !is_subdomain_label(normalized.as_str()) {
            return (
                CreateFlow {
                    options,
                    name: normalized,
                    stage: CreateStage::Stopped,
                    domain: String::new(),
                },
                CreateAction::Reject(SubdomainError::InvalidName),
            );
        }
        let stage = if options.enforce_blacklist {
            CreateStage::Blacklist
        } else if options.enforce_limit {
            CreateStage::Limit
        } else {
            CreateStage::Domain
        };
        let action = if options.enforce_blacklist {
            CreateAction::LoadBlacklist
        } else if options.enforce_limit {
            CreateAction::CountSubdomains
        } else {
            CreateAction::LoadDomain
        };
        (CreateFlow { options, name: normalized, stage, domain: String::new() }, action)
    }

    /// The row of a subdomain whose checks all passed: the checked name, the
    /// allocation it points at and its created records.
    pub fn new_row(
        &self,
        server_uuid: u128,
        domain_uuid: u128,
        allocation_uuid: u128,
        records: Vec<StoredRecord>,
    ) -> (res: NewSubdomain)
        requires
            self.stage == CreateStage::Ready,
        ensures
            res.server_uuid == server_uuid,
            res.domain_uuid == domain_uuid,
            res.allocation_uuid == Some(allocation_uuid),
            res.name@ == self.name@,
            res.records@ == records@,
    {
        NewSubdomain {
            server_uuid,
            domain_uuid,
            allocation_uuid: Some(allocation_uuid),
            name: self.name.clone(),
            records,
        }
    }

    /// Takes in the answer to the last action and decides what comes next.
    pub fn step(&mut self, event: CreateEvent) -> (res: CreateAction)
        requires
            answers(old(self).stage, &event),
        ensures
            final(self).options == old(self).options,
            final(self).name@ == old(self).name@,
            stage_action_is(final(self).stage, res, final(self).name@, final(self).spec_fqdn()),
            match event {
                CreateEvent::Blacklist(patterns) => if blacklisted(patterns@, old(self).name@) {
                    res matches CreateAction::Reject(SubdomainError::NameNotAllowed)
                } else {
                    final(self).stage == after_blacklist(old(self).options)
                },
                CreateEvent::SubdomainCount { count, limit } => if count >= limit {
                    res matches CreateAction::Reject(SubdomainError::LimitReached)
                } else {
                    final(self).stage == CreateStage::Domain
                },
                CreateEvent::Domain(found) => match found {
                    Some(d) => if d.enabled {
                        final(self).stage == CreateStage::Allocation && final(self).domain@
                            == d.domain@
                    } else {
                        res matches CreateAction::Reject(SubdomainError::DomainNotFound)
                    },
                    None => res matches CreateAction::Reject(SubdomainError::DomainNotFound),
                },
                CreateEvent::Allocation { belongs } => if belongs {
                    final(self).stage == CreateStage::Taken
                } else {
                    res matches CreateAction::Reject(SubdomainError::AllocationNotOnServer)
                },
                CreateEvent::Taken(taken) => if taken {
                    res matches CreateAction::Reject(SubdomainError::NameTaken)
                } else {
                    final(self).stage == CreateStage::ReverseProxy && final(self).domain@
                        == old(self).domain@
                },
                CreateEvent::ReverseProxy(used) => if used {
                    res matches CreateAction::Reject(SubdomainError::UsedByReverseProxy)
                } else {
                    final(self).stage == CreateStage::Ready
                },
            },
            !(event is Domain) ==> final(self).domain@ == old(self).domain@,
            checks_enforced(*old(self)) ==> checks_enforced(*final(self)),
    {
        match event {
            CreateEvent::Blacklist(patterns) => {
                if is_blacklisted(&patterns, self.name.as_str()) {
                    self.stage = CreateStage::Stopped;
                    CreateAction::Reject(SubdomainError::NameNotAllowed)
                } else if self.options.enforce_limit {
                    self.stage = CreateStage::Limit;
                    CreateAction::CountSubdomains
                } else {
                    self.stage = CreateStage::Domain;
                    CreateAction::LoadDomain
                }
            },
            CreateEvent::SubdomainCount { count, limit } => {
                if count >= limit as i64 {
                    self.stage = CreateStage::Stopped;
                    CreateAction::Reject(SubdomainError::LimitReached)
                } else {
                    self.stage = CreateStage::Domain;
                    CreateAction::LoadDomain
                }
            },
            CreateEvent::Domain(found) => match found {
                Some(d) => if d.enabled {
                    self.domain = d.domain;
                    self.stage = CreateStage::Allocation;
                    CreateAction::LoadAllocation
                } else {
                    self.stage = CreateStage::Stopped;
                    CreateAction::Reject(SubdomainError::DomainNotFound)
                },
                None => {
                    self.stage = CreateStage::Stopped;
                    CreateAction::Reject(SubdomainError::DomainNotFound)
                },
            },
            CreateEvent::Allocation { belongs } => {
                if belongs {
                    self.stage = CreateStage::Taken;
                    CreateAction::CheckTaken { name: self.name.clone() }
                } else {
                    self.stage = CreateStage::Stopped;
                    CreateAction::Reject(SubdomainError::AllocationNotOnServer)
                }
            },
            CreateEvent::Taken(taken) => {
                if taken {
                    self.stage = CreateStage::Stopped;
                    CreateAction::Reject(SubdomainError::NameTaken)
                } else {
                    self.stage = CreateStage::ReverseProxy;
                    let mut fqdn = chars_of(self.name.as_str());
                    fqdn.push('.');
                    extend_chars(&mut fqdn, &chars_of(self.domain.as_str()));
                    assert(fqdn@ =~= self.name@ + seq!['.'] + self.domain@);
                    CreateAction::CheckReverseProxy { fqdn: string_of(&fqdn) }
                }
            },
            CreateEvent::ReverseProxy(used) => {
                if used {
                    self.stage = CreateStage::Stopped;
                    CreateAction::Reject(SubdomainError::UsedByReverseProxy)
                } else {
                    self.stage = CreateStage::Ready;
                    CreateAction::Render { name: self.name.clone() }
                }
            },
        }
    }
}

} // verus!

verus! {

// ---------------------------------------------------------------------------
// Creating records with rollback
// ---------------------------------------------------------------------------
/// What happened to the last record call.
pub enum CreationEvent {
    /// The provider created the record.
    Created(StoredRecord),
    /// The provider failed to create the record.
    CreateFailed,
    /// A rollback deletion finished (whether or not it succeeded).
    Deleted,
}

/// The next record call.
#[derive(Clone, Debug)]
pub enum CreationAction {
    /// Create the record input with this index.
    Create(usize),
    /// Delete an already created record (rollback).
    Delete(String),
    /// Every record was created.
    Finished,
    /// Creation failed and what was created has been rolled back.
    Failed,
}

/// Creates records sequentially; on failure deletes what was already
/// created (best effort) and reports the failure.
pub struct RecordCreation {
    total: usize,
    created: Vec<StoredRecord>,
    failed: bool,
    undone: usize,
}

impl RecordCreation {
    pub closed spec fn spec_total(&self) -> nat {
        self.total as nat
    }

    pub closed spec fn spec_created(&self) -> Seq<StoredRecord> {
        self.created@
    }

    pub closed spec fn spec_failed(&self) -> bool {
        self.failed
    }

    /// Number of rollback deletions done.
    pub closed spec fn spec_undone(&self) -> nat {
        self.undone as nat
    }

    pub closed spec fn wf(&self) -> bool {
        &&& self.created@.len() <= self.total
        &&& self.undone <= self.created@.len()
        &&& !self.failed ==> self.undone == 0
    }

    /// The action following a state.
    pub open spec fn next_is(&self, a: CreationAction) -> bool {
        if !self.spec_failed() {
            if self.spec_created().len() < self.spec_total() {
                a == CreationAction::Create(self.spec_created().len() as usize)
            } else {
                a is Finished
            }
        } else if self.spec_undone() < self.spec_created().len() {
            a matches CreationAction::Delete(id) && id@ == self.spec_created()[self.spec_undone() as int].id@
        } else {
            a is Failed
        }
    }

    /// The event the current action waits for.
    pub open spec fn expects(&self, e: &CreationEvent) -> bool {
        if !self.spec_failed() {
            self.spec_created().len() < self.spec_total() && !(e is Deleted)
        } else {
            self.spec_undone() < self.spec_created().len() && e is Deleted
        }
    }

    /// Starts creating `total` records.
    pub fn new(total: usize) -> (res: (RecordCreation, CreationAction))
        ensures
            res.0.wf(),
            res.0.spec_total() == total,
            res.0.spec_created().len() == 0,
            !res.0.spec_failed(),
            res.0.next_is(res.1),
    {
        let run = RecordCreation { total, created: Vec::new(), failed: false, undone: 0 };
        let action = if total == 0 {
            CreationAction::Finished
        } else {
            CreationAction::Create(0)
        };
        (run, action)
    }

    /// Records the outcome of the last call and decides the next one.
    pub fn step(&mut self, event: CreationEvent) -> (res: CreationAction)
        requires
            old(self).wf(),
            old(self).expects(&event),
        ensures
            final(self).wf(),
            final(self).spec_total() == old(self).spec_total(),
            final(self).next_is(res),
            match event {
                CreationEvent::Created(s) => !final(self).spec_failed()
                    && final(self).spec_created() == old(self).spec_created().push(s),
                CreationEvent::CreateFailed => final(self).spec_failed()
                    && final(self).spec_created() == old(self).spec_created()
                    && final(self).spec_undone() == 0,
                CreationEvent::Deleted => final(self).spec_failed()
                    && final(self).spec_created() == old(self).spec_created()
                    && final(self).spec_undone() == old(self).spec_undone() + 1,
            },
    {
        match event {
            CreationEvent::Created(s) => {
                self.created.push(s);
            },
            CreationEvent::CreateFailed => {
                self.failed = true;
                self.undone = 0;
            },
            CreationEvent::Deleted => {
                self.undone = self.undone + 1;
            },
        }
        if !self.failed {
            if self.created.len() < self.total {
                CreationAction::Create(self.created.len())
            } else {
                CreationAction::Finished
            }
        } else if self.undone < self.created.len() {
            CreationAction::Delete(self.created[self.undone].id.clone())
        } else {
            CreationAction::Failed
        }
    }

    /// The created records, in creation order.
    pub fn into_created(self) -> (res: Vec<StoredRecord>)
        ensures
            res@ == self.spec_created(),
    {
        self.created
    }
}

/// Law: a creation that finishes has created one record per input, in the
/// order of the inputs' indices - `Create(i)` is asked exactly when `i`
/// records exist.
pub proof fn law_creation_finishes_with_all(run: RecordCreation, a: CreationAction)
    requires
        run.wf(),
        run.next_is(a),
        !run.spec_failed(),
    ensures
        a is Finished <==> run.spec_created().len() == run.spec_total(),
        a matches CreationAction::Create(i) ==> i == run.spec_created().len(),
{
}

/// Law: after a failure the rollback deletes every created record once, in
/// creation order, and only then reports the failure.
pub proof fn law_rollback_deletes_created(run: RecordCreation, a: CreationAction)
    requires
        run.wf(),
        run.next_is(a),
        run.spec_failed(),
    ensures
        a is Failed <==> run.spec_undone() == run.spec_created().len(),
        a matches CreationAction::Delete(id) ==> id@ == run.spec_created()[run.spec_undone() as int].id@,
        !(a is Create) && !(a is Finished),
{
}

// ---------------------------------------------------------------------------
// Deleting a subdomain
// ---------------------------------------------------------------------------
/// What happened to the last call of a subdomain deletion.
pub enum RemovalEvent {
    /// Whether the subdomain's domain still exists.
    DomainLooked { found: bool },
    /// The provider client was built.
    ProviderReady,
    /// Building the provider client failed.
    ProviderFailed,
    /// The record was deleted.
    RecordDeleted,
    /// Deleting the record failed.
    RecordFailed,
}

/// The next call of a subdomain deletion.
#[derive(Clone, Debug)]
pub enum RemovalAction {
    /// Look the subdomain's domain up.
    LookupDomain,
    /// Build the domain's provider client.
    BuildProvider,
    /// Delete a DNS record.
    DeleteRecord(String),
    /// Delete the subdomain row; done.
    DeleteRow,
    /// Abort with `status` (a 502) naming the provider error.
    FailProvider { status: u16 },
    /// Abort with `status` (a 502) naming the record error.
    FailRecord { status: u16 },
}

/// The status a deletion aborts with when the provider fails: 502 Bad
/// Gateway, so the caller can offer a forced delete.
pub open spec fn provider_failure_status() -> u16 {
    502
}

/// Where a deletion stands.
#[derive(Clone, Copy, PartialEq, Eq, Structural, Debug)]
pub enum RemovalStage {
    Lookup,
    Provider,
    Records,
    Finished,
}

/// Deletes the DNS records and then the subdomain. Without `force`, a
/// failing provider aborts so the caller can offer a forced delete; with
/// `force`, failures are skipped and the row is always deleted.
pub struct RecordRemoval {
    ids: Vec<String>,
    next: usize,
    force: bool,
    stage: RemovalStage,
}

impl RecordRemoval {
    pub closed spec fn spec_ids(&self) -> Seq<Seq<char>> {
        self.ids@.map_values(|s: String| s@)
    }

    pub closed spec fn spec_next(&self) -> nat {
        self.next as nat
    }

    pub closed spec fn spec_force(&self) -> bool {
        self.force
    }

    pub closed spec fn spec_stage(&self) -> RemovalStage {
        self.stage
    }

    pub closed spec fn wf(&self) -> bool {
        self.next <= self.ids@.len()
    }

    /// The action that goes with the record position: the next record, or
    /// the row once all were tried.
    pub open spec fn record_action_is(&self, a: RemovalAction) -> bool {
        if self.spec_next() < self.spec_ids().len() {
            a matches RemovalAction::DeleteRecord(id) && id@ == self.spec_ids()[self.spec_next() as int]
        } else {
            a is DeleteRow
        }
    }

    /// The event the current action waits for.
    pub open spec fn expects(&self, e: &RemovalEvent) -> bool {
        match self.spec_stage() {
            RemovalStage::Lookup => e is DomainLooked,
            RemovalStage::Provider => e is ProviderReady || e is ProviderFailed,
            RemovalStage::Records => (e is RecordDeleted || e is RecordFailed) && self.spec_next()
                < self.spec_ids().len(),
            RemovalStage::Finished => false,
        }
    }

    /// Starts deleting a subdomain with these record ids.
    pub fn new(ids: Vec<String>, force: bool) -> (res: (RecordRemoval, RemovalAction))
        ensures
            res.0.wf(),
            res.0.spec_ids() == ids@.map_values(|s: String| s@),
            res.0.spec_next() == 0,
            res.0.spec_force() == force,
            res.0.spec_stage() == RemovalStage::Lookup,
            res.1 is LookupDomain,
    {
        (RecordRemoval { ids, next: 0, force, stage: RemovalStage::Lookup }, RemovalAction::LookupDomain)
    }

    /// The next record deletion, or the row once all records were tried.
    fn record_action(&self) -> (res: RemovalAction)
        requires
            self.wf(),
        ensures
            self.record_action_is(res),
    {
        if self.next < self.ids.len() {
            RemovalAction::DeleteRecord(self.ids[self.next].clone())
        } else {
            RemovalAction::DeleteRow
        }
    }

    /// Records the outcome of the last call and decides the next one.
    pub fn step(&mut self, event: RemovalEvent) -> (res: RemovalAction)
        requires
            old(self).wf(),
            old(self).expects(&event),
        ensures
            final(self).wf(),
            final(self).spec_ids() == old(self).spec_ids(),
            final(self).spec_force() == old(self).spec_force(),
            !(event is RecordDeleted) && !(event is RecordFailed && old(self).spec_force())
                ==> final(self).spec_next() == old(self).spec_next(),
            match event {
                RemovalEvent::DomainLooked { found } => if found {
                    res is BuildProvider && final(self).spec_stage() == RemovalStage::Provider
                } else {
                    res is DeleteRow && final(self).spec_stage() == RemovalStage::Finished
                },
                RemovalEvent::ProviderReady => final(self).spec_stage() == RemovalStage::Records
                    && final(self).spec_next() == old(self).spec_next()
                    && final(self).record_action_is(res),
                RemovalEvent::ProviderFailed => final(self).spec_stage() == RemovalStage::Finished
                    && if old(self).spec_force() {
                    res is DeleteRow
                } else {
                    res == RemovalAction::FailProvider { status: provider_failure_status() }
                },
                RemovalEvent::RecordDeleted => final(self).spec_next() == old(self).spec_next() + 1
                    && final(self).spec_stage() == RemovalStage::Records
                    && final(self).record_action_is(res),
                RemovalEvent::RecordFailed => if old(self).spec_force() {
                    final(self).spec_next() == old(self).spec_next() + 1
                        && final(self).spec_stage() == RemovalStage::Records
                        && final(self).record_action_is(res)
                } else {
                    res == RemovalAction::FailRecord { status: provider_failure_status() }
                        && final(self).spec_stage() == RemovalStage::Finished
                },
            },
    {
        let count = self.ids.len();
        assert(self.spec_ids().len() == count);
        match event {
            RemovalEvent::DomainLooked { found } => {
                if found {
                    self.stage = RemovalStage::Provider;
                    RemovalAction::BuildProvider
                } else {
                    self.stage = RemovalStage::Finished;
                    RemovalAction::DeleteRow
                }
            },
            RemovalEvent::ProviderReady => {
                self.stage = RemovalStage::Records;
                self.record_action()
            },
            RemovalEvent::ProviderFailed => {
                self.stage = RemovalStage::Finished;
                if self.force {
                    RemovalAction::DeleteRow
                } else {
                    RemovalAction::FailProvider { status: 502 }
                }
            },
            RemovalEvent::RecordDeleted => {
                self.next = self.next + 1;
                self.record_action()
            },
            RemovalEvent::RecordFailed => {
                if self.force {
                    self.next = self.next + 1;
                    self.record_action()
                } else {
                    self.stage = RemovalStage::Finished;
                    RemovalAction::FailRecord { status: 502 }
                }
            },
        }
    }
}

// ---------------------------------------------------------------------------
// Pointing a subdomain at another allocation
// ---------------------------------------------------------------------------
/// What happened to the last call of an allocation change.
pub enum ChangeEvent {
    /// Whether the new allocation belongs to the server.
    AllocationLooked { belongs: bool },
    /// Whether the subdomain's domain still exists.
    DomainLooked { found: bool },
    /// How rendering the records for the new allocation went.
    Rendered(Result<(), SubdomainError>),
    /// The provider client was built.
    ProviderReady,
    /// Building the provider client failed.
    ProviderFailed,
    /// Deleting an old record finished, whether or not it succeeded.
    OldRecordDone,
    /// The new records were created.
    RecordsCreated,
    /// Creating the new records failed (and was rolled back).
    RecordsFailed,
}

/// The next call of an allocation change.
#[derive(Clone, Debug)]
pub enum ChangeAction {
    /// Look the new allocation up on the server.
    LoadAllocation,
    /// Look the subdomain's domain up.
    LoadDomain,
    /// Render the records for the new allocation.
    Render,
    /// Build the domain's provider client.
    BuildProvider,
    /// Delete an old record (best effort).
    DeleteOldRecord(String),
    /// Create the rendered records (with rollback).
    CreateRecords,
    /// Store the new allocation and records; done.
    Store,
    /// Refuse the change.
    Reject(SubdomainError),
    /// Abort with the provider error.
    FailProvider,
    /// Abort with `status` (a 400) naming the creation error.
    FailCreate { status: u16 },
}

/// Where an allocation change stands.
#[derive(Clone, Copy, PartialEq, Eq, Structural, Debug)]
pub enum ChangeStage {
    Allocation,
    Domain,
    Render,
    Provider,
    OldRecords,
    Create,
    Finished,
}

/// The status an allocation change aborts with when the new records cannot
/// be created.
pub open spec fn create_failure_status() -> u16 {
    400
}

/// Points a subdomain at another allocation of its server: the allocation
/// must belong to the server and the domain must still exist; the records
/// are rendered before anything is deleted, so a broken template leaves the
/// subdomain as it was; the old records are deleted (failures are skipped),
/// the new ones created, and only then is the row updated.
pub struct AllocationChange {
    ids: Vec<String>,
    next: usize,
    stage: ChangeStage,
}

impl AllocationChange {
    pub closed spec fn spec_ids(&self) -> Seq<Seq<char>> {
        self.ids@.map_values(|s: String| s@)
    }

    pub closed spec fn spec_next(&self) -> nat {
        self.next as nat
    }

    pub closed spec fn spec_stage(&self) -> ChangeStage {
        self.stage
    }

    pub closed spec fn wf(&self) -> bool {
        self.next <= self.ids@.len()
    }

    /// The action once the provider is ready: the next old record, or the
    /// creation once all were tried.
    pub open spec fn old_record_action_is(&self, a: ChangeAction) -> bool {
        if self.spec_next() < self.spec_ids().len() {
            a matches ChangeAction::DeleteOldRecord(id) && id@ == self.spec_ids()[self.spec_next() as int]
                && self.spec_stage() == ChangeStage::OldRecords
        } else {
            a is CreateRecords && self.spec_stage() == ChangeStage::Create
        }
    }

    /// The event the current action waits for.
    pub open spec fn expects(&self, e: &ChangeEvent) -> bool {
        match self.spec_stage() {
            ChangeStage::Allocation => e is AllocationLooked,
            ChangeStage::Domain => e is DomainLooked,
            ChangeStage::Render => e is Rendered,
            ChangeStage::Provider => e is ProviderReady || e is ProviderFailed,
            ChangeStage::OldRecords => e is OldRecordDone && self.spec_next()
                < self.spec_ids().len(),
            ChangeStage::Create => e is RecordsCreated || e is RecordsFailed,
            ChangeStage::Finished => false,
        }
    }

    /// Starts changing the allocation of a subdomain whose current records
    /// have these ids.
    pub fn new(ids: Vec<String>) -> (res: (AllocationChange, ChangeAction))
        ensures
            res.0.wf(),
            res.0.spec_ids() == ids@.map_values(|s: String| s@),
            res.0.spec_next() == 0,
            res.0.spec_stage() == ChangeStage::Allocation,
            res.1 is LoadAllocation,
    {
        (AllocationChange { ids, next: 0, stage: ChangeStage::Allocation }, ChangeAction::LoadAllocation)
    }

    fn old_record_action(&mut self) -> (res: ChangeAction)
        requires
            old(self).wf(),
        ensures
            final(self).wf(),
            final(self).ids@ == old(self).ids@,
            final(self).next == old(self).next,
            final(self).old_record_action_is(res),
    {
        if self.next < self.ids.len() {
            self.stage = ChangeStage::OldRecords;
            ChangeAction::DeleteOldRecord(self.ids[self.next].clone())
        } else {
            self.stage = ChangeStage::Create;
            ChangeAction::CreateRecords
        }
    }

    /// Records the outcome of the last call and decides the next one.
    pub fn step(&mut self, event: ChangeEvent) -> (res: ChangeAction)
        requires
            old(self).wf(),
            old(self).expects(&event),
        ensures
            final(self).wf(),
            final(self).spec_ids() == old(self).spec_ids(),
            !(event is OldRecordDone) ==> final(self).spec_next() == old(self).spec_next(),
            match event {
                ChangeEvent::AllocationLooked { belongs } => if belongs {
                    res is LoadDomain && final(self).spec_stage() == ChangeStage::Domain
                } else {
                    res == ChangeAction::Reject(SubdomainError::AllocationNotOnServer)
                        && final(self).spec_stage() == ChangeStage::Finished
                },
                ChangeEvent::DomainLooked { found } => if found {
                    res is Render && final(self).spec_stage() == ChangeStage::Render
                } else {
                    res == ChangeAction::Reject(SubdomainError::DomainGone)
                        && final(self).spec_stage() == ChangeStage::Finished
                },
                ChangeEvent::Rendered(outcome) => match outcome {
                    Ok(()) => res is BuildProvider && final(self).spec_stage()
                        == ChangeStage::Provider,
                    Err(e) => res == ChangeAction::Reject(e) && final(self).spec_stage()
                        == ChangeStage::Finished,
                },
                ChangeEvent::ProviderReady => final(self).old_record_action_is(res),
                ChangeEvent::ProviderFailed => res is FailProvider && final(self).spec_stage()
                    == ChangeStage::Finished,
                ChangeEvent::OldRecordDone => final(self).spec_next() == old(self).spec_next()
                    + 1 && final(self).old_record_action_is(res),
                ChangeEvent::RecordsCreated => res is Store && final(self).spec_stage()
                    == ChangeStage::Finished,
                ChangeEvent::RecordsFailed => res == ChangeAction::FailCreate {
                    status: create_failure_status(),
                } && final(self).spec_stage() == ChangeStage::Finished,
            },
    {
        let count = self.ids.len();
        assert(self.spec_ids().len() == count);
        match event {
            ChangeEvent::AllocationLooked { belongs } => {
                if belongs {
                    self.stage = ChangeStage::Domain;
                    ChangeAction::LoadDomain
                } else {
                    self.stage = ChangeStage::Finished;
                    ChangeAction::Reject(SubdomainError::AllocationNotOnServer)
                }
            },
            ChangeEvent::DomainLooked { found } => {
                if found {
                    self.stage = ChangeStage::Render;
                    ChangeAction::Render
                } else {
                    self.stage = ChangeStage::Finished;
                    ChangeAction::Reject(SubdomainError::DomainGone)
                }
            },
            ChangeEvent::Rendered(outcome) => match outcome {
                Ok(()) => {
                    self.stage = ChangeStage::Provider;
                    ChangeAction::BuildProvider
                },
                Err(e) => {
                    self.stage = ChangeStage::Finished;
                    ChangeAction::Reject(e)
                },
            },
            ChangeEvent::ProviderReady => self.old_record_action(),
            ChangeEvent::ProviderFailed => {
                self.stage = ChangeStage::Finished;
                ChangeAction::FailProvider
            },
            ChangeEvent::OldRecordDone => {
                self.next = self.next + 1;
                self.old_record_action()
            },
            ChangeEvent::RecordsCreated => {
                self.stage = ChangeStage::Finished;
                ChangeAction::Store
            },
            ChangeEvent::RecordsFailed => {
                self.stage = ChangeStage::Finished;
                ChangeAction::FailCreate { status: 400 }
            },
        }
    }
}

// ---------------------------------------------------------------------------
// Clean-up after an allocation or server went away
// ---------------------------------------------------------------------------
/// How the clean-up of one subdomain's records went.
pub enum CleanupOutcome {
    /// The domain no longer exists.
    NoDomain,
    /// The provider client could not be built.
    NoProvider,
    /// Each record's deletion was tried; `true` where it succeeded.
    Attempted(Vec<bool>),
}

/// The records whose deletion did not succeed, in order.
pub open spec fn failed_records(records: Seq<StoredRecord>, deleted: Seq<bool>) -> Seq<StoredRecord>
    decreases records.len(),
{
    if records.len() == 0 || deleted.len() != records.len() {
        if deleted.len() != records.len() {
            records
        } else {
            seq![]
        }
    } else {
        let rest = failed_records(records.drop_last(), deleted.drop_last());
        if deleted.last() {
            rest
        } else {
            rest.push(records.last())
        }
    }
}

/// The records a subdomain keeps after a best-effort clean-up: all of them
/// when nothing could be tried, else those whose deletion failed.
pub open spec fn spec_remaining_records(records: Seq<StoredRecord>, outcome: CleanupOutcome) -> Seq<StoredRecord> {
    match outcome {
        CleanupOutcome::NoDomain | CleanupOutcome::NoProvider => records,
        CleanupOutcome::Attempted(deleted) => failed_records(records, deleted@),
    }
}

/// The records a subdomain keeps after a best-effort clean-up.
pub fn remaining_records(records: &[StoredRecord], outcome: &CleanupOutcome) -> (res: Vec<StoredRecord>)
    requires
        outcome matches CleanupOutcome::Attempted(d) ==> d@.len() == records@.len(),
    ensures
        res@.len() == spec_remaining_records(records@, *outcome).len(),
        forall|i: int|
            0 <= i < res@.len() ==> #[trigger] res@[i]@ == spec_remaining_records(records@, *outcome)[i]@,
{
    let mut res: Vec<StoredRecord> = Vec::new();
    let mut i: usize = 0;
    let ghost mut kept: Seq<StoredRecord> = seq![];
    while i < records.len()
        invariant
            i <= records@.len(),
            outcome matches CleanupOutcome::Attempted(d) ==> d@.len() == records@.len(),
            kept == (match *outcome {
                CleanupOutcome::NoDomain | CleanupOutcome::NoProvider => records@.take(i as int),
                CleanupOutcome::Attempted(deleted) => failed_records(
                    records@.take(i as int),
                    deleted@.take(i as int),
                ),
            }),
            res@.len() == kept.len(),
            forall|k: int| 0 <= k < kept.len() ==> #[trigger] res@[k]@ == kept[k]@,
        decreases records@.len() - i,
    {
        let keep = match outcome {
            CleanupOutcome::NoDomain | CleanupOutcome::NoProvider => true,
            CleanupOutcome::Attempted(deleted) => !deleted[i],
        };
        proof {
            assert(records@.take(i + 1).drop_last() == records@.take(i as int));
            assert(records@.take(i + 1).last() == records@[i as int]);
            match outcome {
                CleanupOutcome::Attempted(deleted) => {
                    assert(deleted@.take(i + 1).drop_last() == deleted@.take(i as int));
                    assert(deleted@.take(i + 1).last() == deleted@[i as int]);
                },
                _ => {},
            }
        }
        if keep {
            let r = &records[i];
            res.push(StoredRecord {
                id: r.id.clone(),
                record_type: r.record_type,
                name: r.name.clone(),
                content: r.content.clone(),
            });
            proof {
                kept = kept.push(records@[i as int]);
            }
        }
        i = i + 1;
    }
    proof {
        assert(records@.take(records@.len() as int) == records@);
        match outcome {
            CleanupOutcome::Attempted(deleted) => {
                assert(deleted@.take(records@.len() as int) == deleted@);
            },
            _ => {},
        }
    }
    res
}

} // verus!
