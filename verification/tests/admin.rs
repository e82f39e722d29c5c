use dev_caloptreyx_subdomains::ids::{segment_uuid, uuid_chars};
use dev_caloptreyx_subdomains::routes::admin::domains::_domain_::delete::{
    domain_deletion, refuse_deletion_message, DomainDeletion, Params,
};
use dev_caloptreyx_subdomains::routes::admin::domains::_domain_::domain_uuid;
use dev_caloptreyx_subdomains::routes::admin::domains::_domain_::patch::{
    needs_reverify, rename_needs_check, DomainPatch, PatchAction, PatchEvent,
};
use dev_caloptreyx_subdomains::routes::admin::domains::post::{
    normalize_domain, normalize_provider, trim_field,
};
use dev_caloptreyx_subdomains::routes::admin::settings::put::{check_settings, SettingsRejection};
use dev_caloptreyx_subdomains::routes::server::_subdomain_::{owned_subdomain, subdomain_uuid};
use dev_caloptreyx_subdomains::blacklist::{blacklist_errors, is_blacklisted};
use dev_caloptreyx_subdomains::db::{page_offset, Domain, JoinedSubdomain, Subdomain};
use dev_caloptreyx_subdomains::ipaddr::IpValue;
use dev_caloptreyx_subdomains::model::{
    create_limit, feature_limits, limit_reached, subdomain_limit, update_limit, ServerExtension,
    ServerExtensionData,
};
use dev_caloptreyx_subdomains::providers::{DnsRecordType, StoredRecord};
use dev_caloptreyx_subdomains::settings::{
    EggRecords, ExtensionSettingsData, ExtensionSettingsDataDeserializer, RecordTemplate,
};
use dev_caloptreyx_subdomains::ExtensionStruct;

fn stored(id: &str) -> StoredRecord {
    StoredRecord {
        id: id.to_string(),
        record_type: DnsRecordType::TXT,
        name: "mc.example.com".to_string(),
        content: "\"hello\"".to_string(),
    }
}

#[test]
fn create_limit_prefers_payload_then_default() {
    assert_eq!(create_limit(Some(5), Some(2)), 5);
    assert_eq!(create_limit(None, Some(2)), 2);
    assert_eq!(create_limit(None, None), 0);
    assert_eq!(create_limit(Some(-3), Some(2)), 0);
    assert_eq!(create_limit(None, Some(-1)), 0);
}

#[test]
fn update_limit_only_when_sent() {
    assert_eq!(update_limit(None), None);
    assert_eq!(update_limit(Some(0)), Some(0));
    assert_eq!(update_limit(Some(7)), Some(7));
    assert_eq!(update_limit(Some(-7)), Some(0));
}

#[test]
fn feature_limits_expose_the_column() {
    let data = ServerExtensionData { subdomain_limit: 3 };
    assert_eq!(feature_limits(&data).subdomains, Some(3));
    assert_eq!(subdomain_limit(&data), 3);
    assert!(limit_reached(3, 3));
    assert!(!limit_reached(2, 3));
    assert!(limit_reached(0, 0));
}

#[test]
fn default_settings() {
    let settings = ExtensionSettingsData::default();
    assert_eq!(settings.blacklist, vec!["^www$", "^mail$", "^admin$", "^panel$"]);
    assert_eq!(settings.default_limit, 0);
    assert_eq!(settings.default_records.len(), 2);
    assert!(settings.egg_records.is_empty());
}

#[test]
fn records_for_egg_uses_first_override() {
    let mut settings = ExtensionSettingsData::default();
    let txt = |content: &str| RecordTemplate::Custom {
        record_type: DnsRecordType::TXT,
        name: "{name}".to_string(),
        content: content.to_string(),
        ttl: 0,
    };
    settings.egg_records = vec![
        EggRecords { egg_uuid: 1, records: vec![txt("first")] },
        EggRecords { egg_uuid: 1, records: vec![txt("second"), txt("third")] },
        EggRecords { egg_uuid: 2, records: Vec::new() },
    ];
    let one = settings.records_for_egg(1);
    assert_eq!(one.len(), 1);
    assert!(matches!(&one[0], RecordTemplate::Custom { content, .. } if content == "first"));
    assert!(settings.records_for_egg(2).is_empty());
    assert_eq!(settings.records_for_egg(3).len(), 2);
}

#[test]
fn compiled_blacklist_matches_case_insensitively() {
    let mut settings = ExtensionSettingsData::default();
    settings.blacklist.push("(".to_string());
    settings.blacklist.push("^shop-\\d+$".to_string());
    let patterns = settings.compiled_blacklist();
    assert_eq!(patterns.len(), 5);
    assert_eq!(patterns[4].source(), "^shop-\\d+$");
    assert!(is_blacklisted(&patterns, "www"));
    assert!(is_blacklisted(&patterns, "Admin"));
    assert!(is_blacklisted(&patterns, "shop-12"));
    assert!(!is_blacklisted(&patterns, "wwww"));
    assert!(!is_blacklisted(&patterns, "mc"));
    assert!(!is_blacklisted(&[], "www"));
}

#[test]
fn blacklist_errors_name_each_invalid_entry() {
    let entries = vec!["^ok$".to_string(), "(".to_string(), "[".to_string()];
    let errors = blacklist_errors(&entries);
    assert_eq!(errors.len(), 2);
    assert!(errors[0].starts_with("blacklist entry `(` is not a valid regex: "));
    assert!(errors[1].starts_with("blacklist entry `[` is not a valid regex: "));
    assert!(errors[0].len() > "blacklist entry `(` is not a valid regex: ".len());
}

#[test]
fn check_settings_rejections() {
    assert!(check_settings(&ExtensionSettingsData::default()).is_ok());

    let mut bad = ExtensionSettingsData::default();
    bad.blacklist.push("(".to_string());
    match check_settings(&bad) {
        Err(SettingsRejection::InvalidPatterns(messages)) => assert_eq!(messages.len(), 1),
        other => panic!("unexpected {other:?}"),
    }

    let mut dup = ExtensionSettingsData::default();
    let egg = 0x67e5_5044_10b1_426f_9247_bb68_0e5f_e0c8;
    dup.egg_records = vec![
        EggRecords { egg_uuid: 1, records: Vec::new() },
        EggRecords { egg_uuid: egg, records: Vec::new() },
        EggRecords { egg_uuid: egg, records: Vec::new() },
    ];
    match check_settings(&dup) {
        Err(SettingsRejection::DuplicateEgg(found)) => {
            assert_eq!(found, egg);
            assert_eq!(
                SettingsRejection::duplicate_message(found),
                "duplicate egg override for egg 67e55044-10b1-426f-9247-bb680e5fe0c8"
            );
        }
        other => panic!("unexpected {other:?}"),
    }
}

#[test]
fn domain_payload_normalization() {
    assert_eq!(normalize_domain("  Example.COM.. "), "example.com");
    assert_eq!(normalize_provider(" CloudFlare "), "cloudflare");
    assert_eq!(trim_field("  zone-1\n"), "zone-1");
}

#[test]
fn reverify_and_rename_checks() {
    assert!(!needs_reverify(false, false, false));
    assert!(needs_reverify(false, true, false));
    assert!(needs_reverify(false, false, true));
    assert!(rename_needs_check(Some("new.example.com"), "example.com"));
    assert!(!rename_needs_check(Some("example.com"), "example.com"));
    assert!(!rename_needs_check(None, "example.com"));
}

#[test]
fn domain_deletion_needs_force_with_subdomains() {
    assert_eq!(domain_deletion(2, Params::default().force), DomainDeletion::Refuse);
    assert_eq!(domain_deletion(2, true), DomainDeletion::WithSubdomains);
    assert_eq!(domain_deletion(0, false), DomainDeletion::DomainOnly);
    assert_eq!(
        refuse_deletion_message(12),
        "domain still has 12 subdomain(s), pass force to delete them"
    );
}

#[test]
fn domain_update_and_api_shape() {
    let mut domain = Domain {
        uuid: 9,
        domain: "example.com".to_string(),
        provider: "cloudflare".to_string(),
        zone_id: "z1".to_string(),
        credential: "secret".to_string(),
        enabled: true,
        created: 42,
    };
    domain.apply_update(None, None, Some("z2".to_string()), None, Some(false));
    assert_eq!(domain.zone_id, "z2");
    assert!(!domain.enabled);
    assert_eq!(domain.domain, "example.com");
    assert_eq!(domain.credential, "secret");
    let reference = domain.as_ref_api();
    assert_eq!(reference.uuid, 9);
    assert_eq!(reference.domain, "example.com");
    let api = domain.into_api(4);
    assert_eq!(api.subdomain_count, 4);
    assert_eq!(api.zone_id, "z2");
    assert_eq!(api.created, 42);
}

#[test]
fn subdomain_row_updates() {
    let mut row = Subdomain {
        uuid: 1,
        server_uuid: 2,
        domain_uuid: 3,
        allocation_uuid: Some(4),
        name: "mc".to_string(),
        records: vec![stored("a"), stored("b")],
        created: 5,
    };
    assert_eq!(row.record_ids(), vec!["a".to_string(), "b".to_string()]);
    row.set_allocation_and_records(None, vec![stored("c")]);
    assert_eq!(row.allocation_uuid, None);
    assert_eq!(row.record_ids(), vec!["c".to_string()]);
    assert_eq!(row.name, "mc");
}

#[test]
fn joined_subdomain_api_shapes() {
    let joined = JoinedSubdomain {
        uuid: 1,
        server_uuid: 2,
        domain_uuid: 3,
        allocation_uuid: Some(4),
        name: "mc".to_string(),
        records: vec![stored("a")],
        created: 5,
        domain_name: "example.com".to_string(),
        server_name: "My Server".to_string(),
        alloc_ip: Some(IpValue::V4(u32::from_be_bytes([203, 0, 113, 10]))),
        alloc_ip_alias: None,
        alloc_port: Some(25565),
    };
    assert_eq!(joined.fqdn(), "mc.example.com");
    let admin = joined.clone().into_api();
    assert_eq!(admin.server.name, "My Server");
    assert_eq!(admin.server.uuid, 2);
    let api = joined.into_subdomain_api();
    assert_eq!(api.fqdn, "mc.example.com");
    assert_eq!(api.domain.domain, "example.com");
    let allocation = api.allocation.unwrap();
    assert_eq!(allocation.ip, "203.0.113.10");
    assert_eq!(allocation.port, 25565);
    assert_eq!(api.records.len(), 1);
    assert_eq!(api.records[0].record_type, DnsRecordType::TXT);
    assert_eq!(api.records[0].content, "\"hello\"");
}

#[test]
fn joined_subdomain_without_allocation() {
    let joined = JoinedSubdomain {
        uuid: 1,
        server_uuid: 2,
        domain_uuid: 3,
        allocation_uuid: None,
        name: "mc".to_string(),
        records: Vec::new(),
        created: 5,
        domain_name: "example.com".to_string(),
        server_name: "s".to_string(),
        alloc_ip: None,
        alloc_ip_alias: None,
        alloc_port: None,
    };
    assert!(joined.into_subdomain_api().allocation.is_none());
}

#[test]
fn page_offsets() {
    assert_eq!(page_offset(1, 50), 0);
    assert_eq!(page_offset(3, 25), 50);
}

#[test]
fn path_uuids() {
    let segments = vec![
        "67e55044-10b1-426f-9247-bb680e5fe0c8".to_string(),
        "not-a-uuid".to_string(),
    ];
    assert_eq!(domain_uuid(&segments), Some(0x67e5_5044_10b1_426f_9247_bb68_0e5f_e0c8));
    assert_eq!(subdomain_uuid(&segments), None);
    assert_eq!(domain_uuid(&[]), None);
    assert_eq!(segment_uuid(&segments, 5), None);
    let reversed = vec![segments[1].clone(), segments[0].clone()];
    assert_eq!(subdomain_uuid(&reversed), Some(0x67e5_5044_10b1_426f_9247_bb68_0e5f_e0c8));
}

#[test]
fn owned_subdomain_checks_the_server() {
    let row = Subdomain {
        uuid: 1,
        server_uuid: 2,
        domain_uuid: 3,
        allocation_uuid: None,
        name: "mc".to_string(),
        records: Vec::new(),
        created: 0,
    };
    assert_eq!(owned_subdomain(Some(row.clone()), 2).map(|s| s.uuid), Some(1));
    assert!(owned_subdomain(Some(row), 9).is_none());
    assert!(owned_subdomain(None, 2).is_none());
}

#[test]
fn server_extension_columns() {
    let extension = ServerExtension;
    assert_eq!(extension.extension_name(), "dev.caloptreyx.subdomains");
    let columns = extension.extended_columns("s_");
    assert_eq!(columns, vec![("servers.subdomain_limit", "s_subdomain_limit".to_string())]);
    assert_eq!(extension.column_alias(""), "subdomain_limit");
}

#[test]
fn settings_deserializer_falls_back_to_defaults() {
    let deserializer = ExtensionSettingsDataDeserializer;
    let all_default = deserializer.settings_from_fields(None, None, None, None);
    assert_eq!(all_default.blacklist.len(), 4);
    assert_eq!(all_default.default_limit, 0);
    assert_eq!(all_default.default_records.len(), 2);
    let read = deserializer.settings_from_fields(Some(Vec::new()), Some(3), None, Some(Vec::new()));
    assert!(read.blacklist.is_empty());
    assert_eq!(read.default_limit, 3);
    assert_eq!(read.default_records.len(), 2);
}

#[test]
fn extension_permissions() {
    let extension = ExtensionStruct;
    assert_eq!(extension.permission_group_key(), "subdomains");
    let server = extension.server_permissions();
    let names: Vec<&str> = server.permissions.iter().map(|(name, _)| *name).collect();
    assert_eq!(names, vec!["read", "create", "update", "delete"]);
    let admin = extension.admin_permissions();
    let names: Vec<&str> = admin.permissions.iter().map(|(name, _)| *name).collect();
    assert_eq!(names, vec!["read", "manage"]);
    assert_eq!(extension.admin_route_prefix(), "/extensions/dev.caloptreyx.subdomains");
    assert_eq!(extension.server_route_prefix(), "/subdomains");
    assert_eq!(
        server.description,
        "Permissions that control the ability to manage subdomains for this server."
    );
}

#[test]
fn uuid_text_is_hyphenated_lowercase_hex() {
    let text: String = uuid_chars(0x67e5_5044_10b1_426f_9247_bb68_0e5f_e0c8).into_iter().collect();
    assert_eq!(text, "67e55044-10b1-426f-9247-bb680e5fe0c8");
    let nil: String = uuid_chars(0).into_iter().collect();
    assert_eq!(nil, "00000000-0000-0000-0000-000000000000");
    let max: String = uuid_chars(u128::MAX).into_iter().collect();
    assert_eq!(max, "ffffffff-ffff-ffff-ffff-ffffffffffff");
}

fn refused(action: PatchAction) -> (u16, String) {
    match action {
        PatchAction::Refuse { status, message } => (status, message),
        other => panic!("unexpected {other:?}"),
    }
}

#[test]
fn domain_patch_answers_in_order() {
    // nothing about the provider changed and the name is the same: write
    let (_, action) = DomainPatch::start_update(false, false, false, Some("example.com"), "example.com");
    assert!(matches!(action, PatchAction::Update));

    // a rename without provider changes only checks the name
    let (mut run, action) =
        DomainPatch::start_update(false, false, false, Some("new.example.com"), "example.com");
    match action {
        PatchAction::CheckName(name) => assert_eq!(name, "new.example.com"),
        other => panic!("unexpected {other:?}"),
    }
    assert_eq!(
        refused(run.step(PatchEvent::NameTaken(true))),
        (409, "a domain with this name already exists".to_string())
    );

    // a new credential rebuilds and verifies first
    let (mut run, action) =
        DomainPatch::start_update(false, false, true, Some("new.example.com"), "example.com");
    assert!(matches!(action, PatchAction::BuildClient));
    assert_eq!(
        refused(run.step(PatchEvent::ClientBuilt(Err("unknown dns provider `x`".to_string())))),
        (400, "unknown dns provider `x`".to_string())
    );

    let (mut run, _) = DomainPatch::start_update(true, false, false, None, "example.com");
    assert!(matches!(run.step(PatchEvent::ClientBuilt(Ok(()))), PatchAction::Verify));
    assert_eq!(
        refused(run.step(PatchEvent::Verified(Err("bunny: bad key".to_string())))),
        (400, "failed to verify zone: bunny: bad key".to_string())
    );

    let (mut run, _) = DomainPatch::start_update(true, false, false, None, "example.com");
    run.step(PatchEvent::ClientBuilt(Ok(())));
    assert!(matches!(run.step(PatchEvent::Verified(Ok(()))), PatchAction::Update));
}

#[test]
fn domain_create_verifies_then_checks_the_name() {
    let (mut run, action) = DomainPatch::start_create("example.com");
    assert!(matches!(action, PatchAction::BuildClient));
    run.step(PatchEvent::ClientBuilt(Ok(())));
    match run.step(PatchEvent::Verified(Ok(()))) {
        PatchAction::CheckName(name) => assert_eq!(name, "example.com"),
        other => panic!("unexpected {other:?}"),
    }
    assert!(matches!(run.step(PatchEvent::NameTaken(false)), PatchAction::Update));
}
