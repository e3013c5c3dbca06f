use cloudflare_dns_updater::api::DNSRecordResult;
use cloudflare_dns_updater::config_loader::config_path_from_args;
use cloudflare_dns_updater::reconcile::build_update_record;
use cloudflare_dns_updater::reconcile::RecordType;

fn args(list: &[&str]) -> Vec<String> {
    list.iter().map(|s| s.to_string()).collect()
}

#[test]
fn default_path_without_flag() {
    assert_eq!(config_path_from_args(&args(&["prog"])), "config.json");
    assert_eq!(config_path_from_args(&args(&[])), "config.json");
    assert_eq!(config_path_from_args(&args(&["prog", "-x", "other"])), "config.json");
}

#[test]
fn flag_selects_custom_path() {
    assert_eq!(config_path_from_args(&args(&["prog", "-c", "custom.json"])), "custom.json");
    assert_eq!(config_path_from_args(&args(&["prog", "noise", "-c", "custom.json", "tail"])),
        "custom.json");
}

#[test]
fn last_flag_wins() {
    assert_eq!(config_path_from_args(&args(&["prog", "-c", "one.json", "-c", "two.json"])),
        "two.json");
}

#[test]
fn trailing_flag_without_value_changes_nothing() {
    assert_eq!(config_path_from_args(&args(&["prog", "-c"])), "config.json");
    assert_eq!(config_path_from_args(&args(&["prog", "-c", "kept.json", "-c"])), "kept.json");
}

#[test]
fn flag_consumes_the_next_argument() {
    // The argument right after a flag is taken as the path, even when it
    // looks like a flag itself.
    assert_eq!(config_path_from_args(&args(&["prog", "-c", "-c", "x"])), "-c");
}

#[test]
fn update_body_carries_ttl_and_proxy_flag_over() {
    let record = DNSRecordResult {
        id: "id-1".to_string(),
        name: "a.example.com".to_string(),
        content: "1.2.3.3".to_string(),
        locked: false,
        proxied: true,
        ttl: 3600,
        zone_id: "zone-1".to_string(),
        modified_on: "2023-01-01T00:00:00Z".to_string(),
    };
    let body = build_update_record(&record, &"1.2.3.4".to_string(), RecordType::A);
    assert_eq!(body.record_type, "A");
    assert_eq!(body.name, "a.example.com");
    assert_eq!(body.content, "1.2.3.4");
    assert_eq!(body.ttl, 3600);
    assert!(body.proxied);

    let body6 = build_update_record(&record, &"::1".to_string(), RecordType::AAAA);
    assert_eq!(body6.record_type, "AAAA");
}

#[test]
fn record_type_labels() {
    assert_eq!(RecordType::A.label_string(), "A");
    assert_eq!(RecordType::AAAA.label_string(), "AAAA");
}
