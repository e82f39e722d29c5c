use dev_caloptreyx_subdomains::ipaddr::{IpValue, Ipv6Value};
use dev_caloptreyx_subdomains::providers::DnsRecordType;
use dev_caloptreyx_subdomains::records::{
    clean_alias, fqdn_name, render, render_records, resolve_target, resolve_target_parts,
    Allocation, Target, TargetError, Vars,
};
use dev_caloptreyx_subdomains::settings::RecordTemplate;

const NIL: &str = "00000000-0000-0000-0000-000000000000";

fn vars() -> Vars {
    Vars {
        name: "mc".to_string(),
        domain: "example.com".to_string(),
        ip: "203.0.113.10".to_string(),
        port: 25565,
        server: 0,
        server_name: "My Server".to_string(),
    }
}

fn v4(a: u8, b: u8, c: u8, d: u8) -> u32 {
    u32::from_be_bytes([a, b, c, d])
}

fn v6(bits: u128, text: &str) -> Ipv6Value {
    Ipv6Value { bits, text: text.to_string() }
}

const DOC_V6: u128 = 0x2001_0db8_0000_0000_0000_0000_0000_0001;

#[test]
fn render_expands_all_placeholders() {
    let rendered = render("{name}.{domain} {fqdn} {ip} {port} {server} {server_name}", &vars());
    assert_eq!(
        rendered,
        format!("mc.example.com mc.example.com 203.0.113.10 25565 {} My Server", NIL)
    );
}

#[test]
fn render_leaves_unknown_placeholders() {
    assert_eq!(render("{unknown}", &vars()), "{unknown}");
}

#[test]
fn render_formats_server_uuid_and_negative_port() {
    let mut v = vars();
    v.server = 0x67e5_5044_10b1_426f_9247_bb68_0e5f_e0c8;
    v.port = -7;
    assert_eq!(render("{server}:{port}", &v), "67e55044-10b1-426f-9247-bb680e5fe0c8:-7");
}

#[test]
fn render_replaces_fqdn_before_name() {
    assert_eq!(render("{fqdn}/{name}/{domain}", &vars()), "mc.example.com/mc/example.com");
}

#[test]
fn render_plain_text_is_unchanged() {
    assert_eq!(render("plain text}", &vars()), "plain text}");
}

#[test]
fn resolve_target_plain_ipv4() {
    let target = resolve_target_parts(&IpValue::V4(v4(203, 0, 113, 10)), None, None).unwrap();
    assert_eq!(target, Target::Ipv4(v4(203, 0, 113, 10)));
}

#[test]
fn resolve_target_plain_ipv6() {
    let target =
        resolve_target_parts(&IpValue::V6(v6(DOC_V6, "2001:db8::1")), None, None).unwrap();
    assert_eq!(target, Target::Ipv6(v6(DOC_V6, "2001:db8::1")));
}

#[test]
fn resolve_target_alias_hostname() {
    let alias = Some(" node.example.com. ");
    assert_eq!(clean_alias(alias), Some("node.example.com".to_string()));
    let target = resolve_target_parts(&IpValue::V4(v4(203, 0, 113, 10)), alias, None).unwrap();
    assert_eq!(target, Target::Hostname("node.example.com".to_string()));
}

#[test]
fn resolve_target_alias_ip_wins_over_ip() {
    let target = resolve_target_parts(
        &IpValue::V4(v4(203, 0, 113, 10)),
        Some("198.51.100.5"),
        Some(IpValue::V4(v4(198, 51, 100, 5))),
    )
    .unwrap();
    assert_eq!(target, Target::Ipv4(v4(198, 51, 100, 5)));
}

#[test]
fn resolve_target_unspecified_ip_errors() {
    let err = resolve_target_parts(&IpValue::V4(0), None, None).unwrap_err();
    assert_eq!(err, TargetError::NoPublicAddress);
    assert!(err.message().contains("no public address"));
}

#[test]
fn resolve_target_unspecified_ip_with_alias_uses_alias() {
    let target =
        resolve_target_parts(&IpValue::V4(0), Some("node.example.com"), None).unwrap();
    assert_eq!(target, Target::Hostname("node.example.com".to_string()));
}

#[test]
fn resolve_target_blank_alias_falls_back_to_ip() {
    assert_eq!(clean_alias(Some(" .. ")), None);
    let target = resolve_target_parts(&IpValue::V4(v4(10, 0, 0, 1)), Some(" .. "), None).unwrap();
    assert_eq!(target, Target::Ipv4(v4(10, 0, 0, 1)));
    let unspecified_v6 = IpValue::V6(v6(0, "::"));
    assert!(resolve_target_parts(&unspecified_v6, Some(""), None).is_err());
}

#[test]
fn resolve_target_from_allocation() {
    let allocation = Allocation {
        ip: IpValue::V4(v4(203, 0, 113, 10)),
        ip_alias: Some("alias.example.net".to_string()),
        port: 25565,
    };
    let target = resolve_target(&allocation, None).unwrap();
    assert_eq!(target.record_type(), DnsRecordType::CNAME);
    assert_eq!(target.content(), "alias.example.net");
}

#[test]
fn target_content_and_type() {
    let t = Target::Ipv4(v4(203, 0, 113, 10));
    assert_eq!(t.record_type(), DnsRecordType::A);
    assert_eq!(t.content(), "203.0.113.10");
    let t = Target::Ipv6(v6(DOC_V6, "2001:db8::1"));
    assert_eq!(t.record_type(), DnsRecordType::AAAA);
    assert_eq!(t.content(), "2001:db8::1");
}

#[test]
fn render_records_address_follows_target_type() {
    let templates = [RecordTemplate::Address { name: "{name}".to_string(), proxied: true, ttl: 0 }];
    let records =
        render_records(&templates, &vars(), &Target::Hostname("node.example.com".to_string()))
            .unwrap();
    assert_eq!(records.len(), 1);
    assert_eq!(records[0].record_type, DnsRecordType::CNAME);
    assert_eq!(records[0].name, "mc.example.com");
    assert_eq!(records[0].content, "node.example.com");
    assert!(records[0].proxied);
}

#[test]
fn render_records_srv_name_and_target() {
    let templates = [RecordTemplate::Srv {
        service: "_minecraft".to_string(),
        protocol: "_tcp".to_string(),
        priority: 0,
        weight: 5,
        ttl: 0,
    }];
    let records =
        render_records(&templates, &vars(), &Target::Ipv4(v4(203, 0, 113, 10))).unwrap();
    assert_eq!(records[0].record_type, DnsRecordType::SRV);
    assert_eq!(records[0].name, "_minecraft._tcp.mc.example.com");
    assert_eq!(records[0].content, "mc.example.com");
    assert_eq!(records[0].port, 25565);
    assert_eq!(records[0].weight, 5);
}

#[test]
fn render_records_srv_port_out_of_range_is_zero() {
    let templates = [RecordTemplate::Srv {
        service: "_x".to_string(),
        protocol: "_udp".to_string(),
        priority: 1,
        weight: 2,
        ttl: 3,
    }];
    let mut v = vars();
    v.port = 70000;
    let records = render_records(&templates, &v, &Target::Ipv4(1)).unwrap();
    assert_eq!(records[0].port, 0);
    assert_eq!(records[0].priority, 1);
    assert_eq!(records[0].ttl, 3);
}

#[test]
fn render_records_custom_renders_and_qualifies() {
    let templates = [RecordTemplate::Custom {
        record_type: DnsRecordType::TXT,
        name: "_verify.{name}".to_string(),
        content: "server={server}".to_string(),
        ttl: 60,
    }];
    let records =
        render_records(&templates, &vars(), &Target::Ipv4(v4(203, 0, 113, 10))).unwrap();
    assert_eq!(records[0].name, "_verify.mc.example.com");
    assert_eq!(records[0].content, format!("server={}", NIL));
    assert_eq!(records[0].ttl, 60);
}

#[test]
fn render_records_custom_srv_rejected() {
    let templates = [RecordTemplate::Custom {
        record_type: DnsRecordType::SRV,
        name: "x".to_string(),
        content: "y".to_string(),
        ttl: 0,
    }];
    assert!(render_records(&templates, &vars(), &Target::Ipv4(v4(203, 0, 113, 10))).is_err());
}

#[test]
fn render_records_empty_templates() {
    let records = render_records(&[], &vars(), &Target::Ipv4(1)).unwrap();
    assert!(records.is_empty());
}

#[test]
fn fqdn_name_apex_and_already_qualified() {
    assert_eq!(fqdn_name("@", "example.com"), "example.com");
    assert_eq!(fqdn_name("example.com.", "example.com"), "example.com");
    assert_eq!(fqdn_name("a.example.com", "example.com"), "a.example.com");
    assert_eq!(fqdn_name("a", "example.com"), "a.example.com");
}

#[test]
fn fqdn_name_is_idempotent_and_empty_is_apex() {
    assert_eq!(fqdn_name("", "example.com"), "example.com");
    assert_eq!(fqdn_name("...", "example.com"), "example.com");
    let once = fqdn_name("www.", "example.com");
    assert_eq!(once, "www.example.com");
    assert_eq!(fqdn_name(&once, "example.com"), once);
    // a name merely ending in the domain's text is not inside the domain
    assert_eq!(fqdn_name("notexample.com", "example.com"), "notexample.com.example.com");
}
