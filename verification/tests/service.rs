use dev_caloptreyx_subdomains::ipaddr::IpValue;
use dev_caloptreyx_subdomains::providers::{DnsRecordType, StoredRecord};
use dev_caloptreyx_subdomains::records::Allocation;
use dev_caloptreyx_subdomains::service::{
    AllocationChange, ChangeAction, ChangeEvent, is_subdomain_label, normalize_name, remaining_records, render_subdomain_records,
    CleanupOutcome, CreateAction, CreateEvent, CreateFlow, CreateOptions, CreateStage,
    CreationAction, CreationEvent, DomainStatus, RecordCreation, RecordRemoval, RemovalAction,
    RemovalEvent, SubdomainError,
};
use dev_caloptreyx_subdomains::settings::{ExtensionSettingsData, RecordTemplate};

const USER: CreateOptions = CreateOptions { enforce_limit: true, enforce_blacklist: true };
const ADMIN: CreateOptions = CreateOptions { enforce_limit: false, enforce_blacklist: false };

fn v4(a: u8, b: u8, c: u8, d: u8) -> u32 {
    u32::from_be_bytes([a, b, c, d])
}

fn stored(id: &str) -> StoredRecord {
    StoredRecord {
        id: id.to_string(),
        record_type: DnsRecordType::A,
        name: format!("{id}.example.com"),
        content: "203.0.113.10".to_string(),
    }
}

fn domain(enabled: bool) -> CreateEvent {
    CreateEvent::Domain(Some(DomainStatus { enabled, domain: "example.com".to_string() }))
}

#[test]
fn subdomain_name_regex() {
    let long_valid = "x".repeat(63);
    for valid in ["a", "mc", "my-server", "0", "a-b-c", long_valid.as_str(), "s1a2b3"] {
        assert!(is_subdomain_label(valid), "{valid} should be valid");
    }

    let long_invalid = "x".repeat(64);
    for invalid in ["", "-a", "a-", "-", long_invalid.as_str(), "a_b", "A", "a b", "a.b", "ä"] {
        assert!(!is_subdomain_label(invalid), "{invalid} should be invalid");
    }
}

#[test]
fn normalize_name_trims_and_lowercases() {
    assert_eq!(normalize_name("  My-Server \t"), "my-server");
    assert_eq!(normalize_name("MC"), "mc");
    assert_eq!(normalize_name(""), "");
}

#[test]
fn subdomain_errors_status_and_message() {
    assert_eq!(SubdomainError::NameTaken.status(), 409);
    assert_eq!(SubdomainError::UsedByReverseProxy.status(), 409);
    assert_eq!(SubdomainError::InvalidName.status(), 400);
    assert_eq!(SubdomainError::LimitReached.status(), 400);
    assert_eq!(SubdomainError::NameNotAllowed.message(), "this subdomain name is not allowed");
    assert_eq!(SubdomainError::LimitReached.message(), "subdomain limit reached for this server");
    assert_eq!(
        SubdomainError::CustomSrv.message(),
        "custom records cannot be of type SRV; use the `srv` template kind"
    );
}

#[test]
fn create_flow_user_happy_path() {
    let (mut flow, action) = CreateFlow::start(" MC ", USER);
    assert_eq!(flow.name, "mc");
    assert!(matches!(action, CreateAction::LoadBlacklist));
    let patterns = ExtensionSettingsData::default().compiled_blacklist();
    assert!(matches!(flow.step(CreateEvent::Blacklist(patterns)), CreateAction::CountSubdomains));
    assert!(matches!(
        flow.step(CreateEvent::SubdomainCount { count: 1, limit: 2 }),
        CreateAction::LoadDomain
    ));
    assert!(matches!(flow.step(domain(true)), CreateAction::LoadAllocation));
    match flow.step(CreateEvent::Allocation { belongs: true }) {
        CreateAction::CheckTaken { name } => assert_eq!(name, "mc"),
        other => panic!("unexpected {other:?}"),
    }
    match flow.step(CreateEvent::Taken(false)) {
        CreateAction::CheckReverseProxy { fqdn } => assert_eq!(fqdn, "mc.example.com"),
        other => panic!("unexpected {other:?}"),
    }
    match flow.step(CreateEvent::ReverseProxy(false)) {
        CreateAction::Render { name } => assert_eq!(name, "mc"),
        other => panic!("unexpected {other:?}"),
    }
    assert_eq!(flow.stage, CreateStage::Ready);
}

#[test]
fn create_flow_rejects_invalid_name() {
    let (flow, action) = CreateFlow::start("a_b", USER);
    assert!(matches!(action, CreateAction::Reject(SubdomainError::InvalidName)));
    assert_eq!(flow.stage, CreateStage::Stopped);
}

#[test]
fn create_flow_rejects_blacklisted_name_case_insensitively() {
    let (mut flow, _) = CreateFlow::start("WWW", USER);
    let patterns = ExtensionSettingsData::default().compiled_blacklist();
    assert!(matches!(
        flow.step(CreateEvent::Blacklist(patterns)),
        CreateAction::Reject(SubdomainError::NameNotAllowed)
    ));
}

#[test]
fn create_flow_limit_reached() {
    let (mut flow, _) = CreateFlow::start("mc", USER);
    flow.step(CreateEvent::Blacklist(Vec::new()));
    assert!(matches!(
        flow.step(CreateEvent::SubdomainCount { count: 2, limit: 2 }),
        CreateAction::Reject(SubdomainError::LimitReached)
    ));
}

#[test]
fn create_flow_admin_skips_blacklist_and_limit() {
    let (mut flow, action) = CreateFlow::start("www", ADMIN);
    assert!(matches!(action, CreateAction::LoadDomain));
    assert!(matches!(flow.step(domain(true)), CreateAction::LoadAllocation));
}

#[test]
fn create_flow_disabled_or_missing_domain() {
    let (mut flow, _) = CreateFlow::start("mc", ADMIN);
    assert!(matches!(flow.step(domain(false)), CreateAction::Reject(SubdomainError::DomainNotFound)));
    let (mut flow, _) = CreateFlow::start("mc", ADMIN);
    assert!(matches!(
        flow.step(CreateEvent::Domain(None)),
        CreateAction::Reject(SubdomainError::DomainNotFound)
    ));
}

#[test]
fn create_flow_conflicts() {
    let (mut flow, _) = CreateFlow::start("mc", ADMIN);
    flow.step(domain(true));
    assert!(matches!(
        flow.step(CreateEvent::Allocation { belongs: false }),
        CreateAction::Reject(SubdomainError::AllocationNotOnServer)
    ));

    let (mut flow, _) = CreateFlow::start("mc", ADMIN);
    flow.step(domain(true));
    flow.step(CreateEvent::Allocation { belongs: true });
    let rejected = flow.step(CreateEvent::Taken(true));
    assert!(matches!(rejected, CreateAction::Reject(SubdomainError::NameTaken)));

    let (mut flow, _) = CreateFlow::start("mc", ADMIN);
    flow.step(domain(true));
    flow.step(CreateEvent::Allocation { belongs: true });
    flow.step(CreateEvent::Taken(false));
    assert!(matches!(
        flow.step(CreateEvent::ReverseProxy(true)),
        CreateAction::Reject(SubdomainError::UsedByReverseProxy)
    ));
}

#[test]
fn render_subdomain_records_with_default_templates() {
    let settings = ExtensionSettingsData::default();
    let allocation =
        Allocation { ip: IpValue::V4(v4(203, 0, 113, 10)), ip_alias: None, port: 25565 };
    let records = render_subdomain_records(
        &settings,
        7,
        0,
        "My Server",
        "mc",
        "example.com",
        &allocation,
        None,
    )
    .unwrap();
    assert_eq!(records.len(), 2);
    assert_eq!(records[0].record_type, DnsRecordType::A);
    assert_eq!(records[0].name, "mc.example.com");
    assert_eq!(records[0].content, "203.0.113.10");
    assert_eq!(records[1].record_type, DnsRecordType::SRV);
    assert_eq!(records[1].name, "_minecraft._tcp.mc.example.com");
    assert_eq!(records[1].content, "mc.example.com");
    assert_eq!(records[1].port, 25565);
}

#[test]
fn render_subdomain_records_errors() {
    let settings = ExtensionSettingsData::default();
    let unspecified = Allocation { ip: IpValue::V4(0), ip_alias: None, port: 25565 };
    let res = render_subdomain_records(
        &settings, 7, 0, "s", "mc", "example.com", &unspecified, None,
    );
    assert_eq!(res.unwrap_err(), SubdomainError::NoPublicAddress);

    let mut custom = ExtensionSettingsData::default();
    custom.default_records = vec![RecordTemplate::Custom {
        record_type: DnsRecordType::SRV,
        name: "{name}".to_string(),
        content: "x".to_string(),
        ttl: 0,
    }];
    let allocation =
        Allocation { ip: IpValue::V4(v4(203, 0, 113, 10)), ip_alias: None, port: 25565 };
    let res = render_subdomain_records(&custom, 7, 0, "s", "mc", "example.com", &allocation, None);
    assert_eq!(res.unwrap_err(), SubdomainError::CustomSrv);
}

#[test]
fn record_creation_finishes_in_order() {
    let (mut run, action) = RecordCreation::new(2);
    assert!(matches!(action, CreationAction::Create(0)));
    assert!(matches!(run.step(CreationEvent::Created(stored("r1"))), CreationAction::Create(1)));
    assert!(matches!(run.step(CreationEvent::Created(stored("r2"))), CreationAction::Finished));
    let created = run.into_created();
    assert_eq!(created.len(), 2);
    assert_eq!(created[0].id, "r1");
    assert_eq!(created[1].id, "r2");
}

#[test]
fn record_creation_with_nothing_to_create() {
    let (_, action) = RecordCreation::new(0);
    assert!(matches!(action, CreationAction::Finished));
}

#[test]
fn record_creation_rolls_back_on_failure() {
    let (mut run, _) = RecordCreation::new(3);
    run.step(CreationEvent::Created(stored("r1")));
    run.step(CreationEvent::Created(stored("r2")));
    match run.step(CreationEvent::CreateFailed) {
        CreationAction::Delete(id) => assert_eq!(id, "r1"),
        other => panic!("unexpected {other:?}"),
    }
    match run.step(CreationEvent::Deleted) {
        CreationAction::Delete(id) => assert_eq!(id, "r2"),
        other => panic!("unexpected {other:?}"),
    }
    assert!(matches!(run.step(CreationEvent::Deleted), CreationAction::Failed));
}

#[test]
fn record_creation_first_failure_has_nothing_to_roll_back() {
    let (mut run, _) = RecordCreation::new(1);
    assert!(matches!(run.step(CreationEvent::CreateFailed), CreationAction::Failed));
}

#[test]
fn record_removal_deletes_records_then_row() {
    let (mut run, action) = RecordRemoval::new(vec!["a".to_string(), "b".to_string()], false);
    assert!(matches!(action, RemovalAction::LookupDomain));
    assert!(matches!(
        run.step(RemovalEvent::DomainLooked { found: true }),
        RemovalAction::BuildProvider
    ));
    match run.step(RemovalEvent::ProviderReady) {
        RemovalAction::DeleteRecord(id) => assert_eq!(id, "a"),
        other => panic!("unexpected {other:?}"),
    }
    match run.step(RemovalEvent::RecordDeleted) {
        RemovalAction::DeleteRecord(id) => assert_eq!(id, "b"),
        other => panic!("unexpected {other:?}"),
    }
    assert!(matches!(run.step(RemovalEvent::RecordDeleted), RemovalAction::DeleteRow));
}

#[test]
fn record_removal_without_domain_deletes_row() {
    let (mut run, _) = RecordRemoval::new(vec!["a".to_string()], false);
    assert!(matches!(
        run.step(RemovalEvent::DomainLooked { found: false }),
        RemovalAction::DeleteRow
    ));
}

#[test]
fn record_removal_failures_abort_unless_forced() {
    let (mut run, _) = RecordRemoval::new(vec!["a".to_string()], false);
    run.step(RemovalEvent::DomainLooked { found: true });
    assert!(matches!(
        run.step(RemovalEvent::ProviderFailed),
        RemovalAction::FailProvider { status: 502 }
    ));

    let (mut run, _) = RecordRemoval::new(vec!["a".to_string()], false);
    run.step(RemovalEvent::DomainLooked { found: true });
    run.step(RemovalEvent::ProviderReady);
    assert!(matches!(
        run.step(RemovalEvent::RecordFailed),
        RemovalAction::FailRecord { status: 502 }
    ));

    let (mut run, _) = RecordRemoval::new(vec!["a".to_string(), "b".to_string()], true);
    run.step(RemovalEvent::DomainLooked { found: true });
    run.step(RemovalEvent::ProviderReady);
    match run.step(RemovalEvent::RecordFailed) {
        RemovalAction::DeleteRecord(id) => assert_eq!(id, "b"),
        other => panic!("unexpected {other:?}"),
    }
    assert!(matches!(run.step(RemovalEvent::RecordFailed), RemovalAction::DeleteRow));

    let (mut run, _) = RecordRemoval::new(vec!["a".to_string()], true);
    run.step(RemovalEvent::DomainLooked { found: true });
    assert!(matches!(run.step(RemovalEvent::ProviderFailed), RemovalAction::DeleteRow));
}

#[test]
fn remaining_records_keep_failed_deletions() {
    let records = vec![stored("a"), stored("b"), stored("c")];
    let kept = remaining_records(&records, &CleanupOutcome::Attempted(vec![true, false, true]));
    assert_eq!(kept.len(), 1);
    assert_eq!(kept[0].id, "b");
    assert_eq!(remaining_records(&records, &CleanupOutcome::NoDomain).len(), 3);
    assert_eq!(remaining_records(&records, &CleanupOutcome::NoProvider).len(), 3);
    let all_gone = remaining_records(&records, &CleanupOutcome::Attempted(vec![true; 3]));
    assert!(all_gone.is_empty());
}

#[test]
fn create_flow_builds_the_row_with_the_checked_name() {
    let (mut flow, _) = CreateFlow::start(" MC ", ADMIN);
    flow.step(domain(true));
    flow.step(CreateEvent::Allocation { belongs: true });
    flow.step(CreateEvent::Taken(false));
    flow.step(CreateEvent::ReverseProxy(false));
    let row = flow.new_row(1, 2, 3, vec![stored("r1")]);
    assert_eq!(row.name, "mc");
    assert_eq!(row.server_uuid, 1);
    assert_eq!(row.domain_uuid, 2);
    assert_eq!(row.allocation_uuid, Some(3));
    assert_eq!(row.records.len(), 1);
}

#[test]
fn allocation_change_renders_before_deleting_old_records() {
    let (mut run, action) = AllocationChange::new(vec!["a".to_string(), "b".to_string()]);
    assert!(matches!(action, ChangeAction::LoadAllocation));
    assert!(matches!(
        run.step(ChangeEvent::AllocationLooked { belongs: true }),
        ChangeAction::LoadDomain
    ));
    assert!(matches!(run.step(ChangeEvent::DomainLooked { found: true }), ChangeAction::Render));
    assert!(matches!(run.step(ChangeEvent::Rendered(Ok(()))), ChangeAction::BuildProvider));
    match run.step(ChangeEvent::ProviderReady) {
        ChangeAction::DeleteOldRecord(id) => assert_eq!(id, "a"),
        other => panic!("unexpected {other:?}"),
    }
    match run.step(ChangeEvent::OldRecordDone) {
        ChangeAction::DeleteOldRecord(id) => assert_eq!(id, "b"),
        other => panic!("unexpected {other:?}"),
    }
    assert!(matches!(run.step(ChangeEvent::OldRecordDone), ChangeAction::CreateRecords));
    assert!(matches!(run.step(ChangeEvent::RecordsCreated), ChangeAction::Store));
}

#[test]
fn allocation_change_refusals() {
    let (mut run, _) = AllocationChange::new(Vec::new());
    assert!(matches!(
        run.step(ChangeEvent::AllocationLooked { belongs: false }),
        ChangeAction::Reject(SubdomainError::AllocationNotOnServer)
    ));

    let (mut run, _) = AllocationChange::new(Vec::new());
    run.step(ChangeEvent::AllocationLooked { belongs: true });
    assert!(matches!(
        run.step(ChangeEvent::DomainLooked { found: false }),
        ChangeAction::Reject(SubdomainError::DomainGone)
    ));

    let (mut run, _) = AllocationChange::new(vec!["a".to_string()]);
    run.step(ChangeEvent::AllocationLooked { belongs: true });
    run.step(ChangeEvent::DomainLooked { found: true });
    assert!(matches!(
        run.step(ChangeEvent::Rendered(Err(SubdomainError::CustomSrv))),
        ChangeAction::Reject(SubdomainError::CustomSrv)
    ));

    let (mut run, _) = AllocationChange::new(Vec::new());
    run.step(ChangeEvent::AllocationLooked { belongs: true });
    run.step(ChangeEvent::DomainLooked { found: true });
    run.step(ChangeEvent::Rendered(Ok(())));
    assert!(matches!(run.step(ChangeEvent::ProviderFailed), ChangeAction::FailProvider));

    let (mut run, _) = AllocationChange::new(Vec::new());
    run.step(ChangeEvent::AllocationLooked { belongs: true });
    run.step(ChangeEvent::DomainLooked { found: true });
    run.step(ChangeEvent::Rendered(Ok(())));
    assert!(matches!(run.step(ChangeEvent::ProviderReady), ChangeAction::CreateRecords));
    assert!(matches!(
        run.step(ChangeEvent::RecordsFailed),
        ChangeAction::FailCreate { status: 400 }
    ));
}
