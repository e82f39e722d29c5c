use dev_caloptreyx_subdomains::ipaddr::{IpValue, Ipv6Value};
use dev_caloptreyx_subdomains::providers::powerdns::{
    canonical, content_matches, normalize_api_url, plan_create, plan_delete, powerdns_settings,
    record_content, select_rrset, txt_content, zone_name, ContentEntry, RecordKey, RrsetChange,
    RrsetEntry,
};
use dev_caloptreyx_subdomains::providers::{
    build, bunny, cloudflare, deletion_succeeded, failure_message, join_messages, BuildError,
    DnsRecordInput, DnsRecordType, ProviderPlan,
};

fn bunny_record(record_type: DnsRecordType) -> DnsRecordInput {
    DnsRecordInput {
        record_type,
        name: "mc.example.com".to_string(),
        content: "203.0.113.10".to_string(),
        ttl: 0,
        proxied: false,
        priority: 0,
        weight: 0,
        port: 0,
    }
}

#[test]
fn relative_name_strips_zone() {
    assert_eq!(bunny::relative_name("mc.example.com", "example.com"), "mc");
    assert_eq!(
        bunny::relative_name("_minecraft._tcp.mc.example.com", "example.com"),
        "_minecraft._tcp.mc"
    );
}

#[test]
fn relative_name_apex_is_empty() {
    assert_eq!(bunny::relative_name("example.com", "example.com"), "");
}

#[test]
fn relative_name_foreign_is_untouched() {
    assert_eq!(bunny::relative_name("mc.other.net", "example.com"), "mc.other.net");
}

#[test]
fn create_body_maps_types_and_relative_name() {
    let body = bunny::create_body(&bunny_record(DnsRecordType::A), "example.com");
    assert_eq!(body.record_type, 0);
    assert_eq!(body.name, "mc");
    assert_eq!(body.value, "203.0.113.10");
    assert_eq!(body.ttl, 300);
}

#[test]
fn create_body_srv() {
    let record = DnsRecordInput {
        record_type: DnsRecordType::SRV,
        name: "_minecraft._tcp.mc.example.com".to_string(),
        content: "mc.example.com".to_string(),
        ttl: 600,
        proxied: false,
        priority: 10,
        weight: 5,
        port: 25565,
    };
    let body = bunny::create_body(&record, "example.com");
    assert_eq!(body.record_type, 8);
    assert_eq!(body.name, "_minecraft._tcp.mc");
    assert_eq!(body.value, "mc.example.com");
    assert_eq!(body.ttl, 600);
    assert_eq!(body.priority, 10);
    assert_eq!(body.weight, 5);
    assert_eq!(body.port, 25565);
}

#[test]
fn bunny_record_type_ids() {
    assert_eq!(bunny::record_type_int(DnsRecordType::AAAA), 1);
    assert_eq!(bunny::record_type_int(DnsRecordType::CNAME), 2);
    assert_eq!(bunny::record_type_int(DnsRecordType::TXT), 3);
}

fn cf_record(record_type: DnsRecordType) -> DnsRecordInput {
    DnsRecordInput {
        record_type,
        name: "mc.example.com".to_string(),
        content: "203.0.113.10".to_string(),
        ttl: 0,
        proxied: true,
        priority: 0,
        weight: 5,
        port: 25565,
    }
}

#[test]
fn create_body_a_auto_ttl_and_proxy() {
    let body = cloudflare::create_body(&cf_record(DnsRecordType::A));
    assert_eq!(body.record_type, "A");
    assert_eq!(body.name, "mc.example.com");
    assert_eq!(body.content.as_deref(), Some("203.0.113.10"));
    assert_eq!(body.ttl, 1);
    assert_eq!(body.proxied, Some(true));
}

#[test]
fn create_body_txt_omits_proxied() {
    let body = cloudflare::create_body(&cf_record(DnsRecordType::TXT));
    assert_eq!(body.record_type, "TXT");
    assert_eq!(body.ttl, 1);
    assert!(body.proxied.is_none());
}

#[test]
fn create_body_explicit_ttl() {
    let mut r = cf_record(DnsRecordType::CNAME);
    r.ttl = 120;
    r.content = "target.example.com".to_string();
    let body = cloudflare::create_body(&r);
    assert_eq!(body.ttl, 120);
    assert_eq!(body.proxied, Some(true));
}

#[test]
fn create_body_srv_uses_data_object() {
    let mut r = cf_record(DnsRecordType::SRV);
    r.name = "_minecraft._tcp.mc.example.com".to_string();
    r.content = "mc.example.com".to_string();
    r.priority = 10;
    let body = cloudflare::create_body(&r);
    assert_eq!(body.record_type, "SRV");
    assert_eq!(body.name, "_minecraft._tcp.mc.example.com");
    let data = body.data.as_ref().unwrap();
    assert_eq!(data.priority, 10);
    assert_eq!(data.weight, 5);
    assert_eq!(data.port, 25565);
    assert_eq!(data.target, "mc.example.com");
    assert!(body.content.is_none());
    assert!(body.proxied.is_none());
}

#[test]
fn build_chooses_provider() {
    match build("cloudflare", "zone", "token").unwrap() {
        ProviderPlan::Cloudflare { zone_id, token } => {
            assert_eq!(zone_id, "zone");
            assert_eq!(token, "token");
        }
        other => panic!("unexpected plan {other:?}"),
    }
    assert!(matches!(build("bunny", "1", "k").unwrap(), ProviderPlan::Bunny { .. }));
    assert!(matches!(build("powerdns", "z", "{}").unwrap(), ProviderPlan::PowerDns { .. }));
    let err = build("route53", "z", "c").unwrap_err();
    assert!(matches!(&err, BuildError::UnknownProvider { provider } if provider == "route53"));
    assert_eq!(err.message(), "unknown dns provider `route53`");
    assert!(build("Cloudflare", "z", "c").is_err());
}

#[test]
fn provider_failure_messages() {
    assert_eq!(failure_message("bunny", "", "401 Unauthorized"), "bunny: request failed with status 401 Unauthorized");
    assert_eq!(failure_message("powerdns", "Not Found", "404"), "powerdns: Not Found");
    let joined = join_messages(&["a".to_string(), "b".to_string(), "c".to_string()]);
    assert_eq!(joined, "a, b, c");
    assert_eq!(join_messages(&[]), "");
}

fn pdns_record(record_type: DnsRecordType, content: &str) -> DnsRecordInput {
    DnsRecordInput {
        record_type,
        name: "_minecraft._tcp.mc.example.com".to_string(),
        content: content.to_string(),
        ttl: 0,
        proxied: false,
        priority: 10,
        weight: 5,
        port: 25565,
    }
}

#[test]
fn api_url_accepts_root_or_api_path() {
    for url in [
        "http://127.0.0.1:8081",
        "http://127.0.0.1:8081/",
        "http://127.0.0.1:8081/api/v1",
        "http://127.0.0.1:8081/api/v1/",
    ] {
        assert_eq!(normalize_api_url(url).unwrap(), "http://127.0.0.1:8081");
    }
    assert!(normalize_api_url("ftp://127.0.0.1").is_err());
    assert!(normalize_api_url("127.0.0.1:8081").is_err());
}

#[test]
fn powerdns_settings_build_zone_url() {
    let config = powerdns_settings("example.com", " https://dns.example.net/api/v1 ", "secret").unwrap();
    assert_eq!(
        config.zone_url,
        "https://dns.example.net/api/v1/servers/localhost/zones/example.com."
    );
    assert_eq!(config.key, "secret");
    assert_eq!(
        powerdns_settings("example.com", "https://dns.example.net", "").unwrap_err(),
        "powerdns: api key is empty"
    );
    assert_eq!(
        powerdns_settings("example.com", "ftp://x", "k").unwrap_err(),
        "powerdns: api url must be http or https"
    );
    assert!(powerdns_settings("example.com", "not a url", "k")
        .unwrap_err()
        .starts_with("powerdns: invalid api url: "));
}

#[test]
fn content_formats() {
    assert_eq!(
        record_content(&pdns_record(DnsRecordType::SRV, "mc.example.com")),
        "10 5 25565 mc.example.com."
    );
    assert_eq!(
        record_content(&pdns_record(DnsRecordType::CNAME, "node.example.net")),
        "node.example.net."
    );
    assert_eq!(
        record_content(&pdns_record(DnsRecordType::TXT, r#"say "hi" \o/"#)),
        r#""say \"hi\" \\o/""#
    );
}

#[test]
fn canonical_adds_one_trailing_dot() {
    assert_eq!(canonical("example.com"), "example.com.");
    assert_eq!(canonical("example.com."), "example.com.");
    assert_eq!(canonical(""), ".");
}

#[test]
fn long_txt_is_split_into_character_strings() {
    let content = txt_content(&"a".repeat(300));
    assert_eq!(content, format!("\"{}\" \"{}\"", "a".repeat(255), "a".repeat(45)));
    assert_eq!(txt_content(""), "\"\"");
}

#[test]
fn txt_chunks_count_bytes_not_chars() {
    // 100 three-byte characters: 85 fit in 255 bytes
    let content = txt_content(&"€".repeat(100));
    assert_eq!(content, format!("\"{}\" \"{}\"", "€".repeat(85), "€".repeat(15)));
}

const DOC_V6: u128 = 0x2001_0db8_0000_0000_0000_0000_0000_0001;

fn v6(text: &str) -> Option<IpValue> {
    Some(IpValue::V6(Ipv6Value { bits: DOC_V6, text: text.to_string() }))
}

#[test]
fn content_matches_normalized_forms() {
    assert!(content_matches(
        DnsRecordType::AAAA,
        "2001:db8::1",
        "2001:0db8:0000::0001",
        &v6("2001:db8::1"),
        &v6("2001:db8::1"),
    ));
    assert!(content_matches(
        DnsRecordType::SRV,
        "0 5 25565 MC.example.com.",
        "0 5 25565 mc.example.com.",
        &None,
        &None,
    ));
    assert!(!content_matches(DnsRecordType::TXT, "\"A\"", "\"a\"", &None, &None));
}

#[test]
fn content_matches_unreadable_addresses_compare_as_text() {
    assert!(!content_matches(DnsRecordType::A, "x", "y", &None, &None));
    assert!(content_matches(DnsRecordType::A, "x", "x", &None, &None));
    assert!(!content_matches(DnsRecordType::A, "1.2.3.4", "x", &Some(IpValue::V4(0x01020304)), &None));
}

#[test]
fn record_key_roundtrips_content_with_spaces() {
    let id = RecordKey {
        record_type: DnsRecordType::SRV,
        name: "_minecraft._tcp.mc.example.com.".to_string(),
        content: "10 5 25565 mc.example.com.".to_string(),
    }
    .encode();
    let key = RecordKey::decode(&id).unwrap();
    assert_eq!(key.record_type, DnsRecordType::SRV);
    assert_eq!(key.name, "_minecraft._tcp.mc.example.com.");
    assert_eq!(key.content, "10 5 25565 mc.example.com.");
    assert!(RecordKey::decode("MX example.com. 10 mail.").is_err());
}

#[test]
fn record_key_decode_errors() {
    let err = RecordKey::decode("A example.com.").unwrap_err();
    assert_eq!(err.message(), "powerdns: malformed record id `A example.com.`");
    let key = RecordKey::decode("TXT n. ").unwrap();
    assert_eq!(key.content, "");
}

fn entry(content: &str) -> ContentEntry {
    ContentEntry { content: content.to_string(), reading: None }
}

#[test]
fn select_rrset_filters_by_type_and_name() {
    let rrsets = vec![
        RrsetEntry {
            record_type: Some("TXT".to_string()),
            name: Some("mc.example.com.".to_string()),
            contents: vec!["\"x\"".to_string()],
            ttl: Some(60),
        },
        RrsetEntry {
            record_type: Some("CNAME".to_string()),
            name: Some("MC.Example.com.".to_string()),
            contents: vec!["node.example.net.".to_string()],
            ttl: Some(120),
        },
    ];
    let found = select_rrset(&rrsets, "mc.example.com.", DnsRecordType::CNAME);
    assert_eq!(found.contents, vec!["node.example.net.".to_string()]);
    assert_eq!(found.ttl, Some(120));
    let none = select_rrset(&rrsets, "mc.example.com.", DnsRecordType::A);
    assert!(none.contents.is_empty());
    assert_eq!(none.ttl, None);
}

#[test]
fn plan_create_appends_once() {
    let record = DnsRecordInput {
        record_type: DnsRecordType::CNAME,
        name: "mc.example.com".to_string(),
        content: "node.example.net".to_string(),
        ttl: 0,
        proxied: false,
        priority: 0,
        weight: 0,
        port: 0,
    };
    let plan = plan_create(&record, &[entry("other.example.net.")], &None);
    assert_eq!(plan.name, "mc.example.com.");
    assert_eq!(plan.ttl, 300);
    assert_eq!(plan.contents, vec!["other.example.net.".to_string(), "node.example.net.".to_string()]);
    assert_eq!(plan.stored.id, "CNAME mc.example.com. node.example.net.");
    assert_eq!(plan.stored.name, "mc.example.com");
    assert_eq!(plan.stored.content, "node.example.net");
    let again = plan_create(&record, &[entry("NODE.example.net.")], &None);
    assert_eq!(again.contents, vec!["NODE.example.net.".to_string()]);
}

#[test]
fn plan_delete_outcomes() {
    let key = RecordKey::decode("CNAME mc.example.com. node.example.net.").unwrap();
    assert!(matches!(plan_delete(&key, &[entry("x.")], &None, Some(60)), RrsetChange::Keep));
    match plan_delete(&key, &[entry("Node.Example.net.")], &None, Some(60)) {
        RrsetChange::Delete { name, record_type } => {
            assert_eq!(name, "mc.example.com.");
            assert_eq!(record_type, DnsRecordType::CNAME);
        }
        other => panic!("unexpected {other:?}"),
    }
    match plan_delete(&key, &[entry("a."), entry("node.example.net."), entry("b.")], &None, None) {
        RrsetChange::Replace { ttl, contents, .. } => {
            assert_eq!(ttl, 300);
            assert_eq!(contents, vec!["a.".to_string(), "b.".to_string()]);
        }
        other => panic!("unexpected {other:?}"),
    }
}

#[test]
fn zone_name_drops_trailing_dots() {
    assert_eq!(zone_name("example.com."), "example.com");
    assert_eq!(zone_name("example.com"), "example.com");
    assert_eq!(zone_name("example.com.."), "example.com");
}

#[test]
fn deletion_of_a_missing_record_succeeds() {
    assert!(deletion_succeeded(200));
    assert!(deletion_succeeded(204));
    assert!(deletion_succeeded(404));
    assert!(!deletion_succeeded(401));
    assert!(!deletion_succeeded(500));
    assert!(!deletion_succeeded(302));
}
