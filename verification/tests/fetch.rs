use cloudflare_dns_updater::api::CloudFlareError;
use cloudflare_dns_updater::api::CloudFlareResult;
use cloudflare_dns_updater::api::DNSRecordResult;
use cloudflare_dns_updater::fetch::name_list_contains;
use cloudflare_dns_updater::fetch::process_fetch_response;
use cloudflare_dns_updater::fetch::ApiError;

fn record(name: &str) -> DNSRecordResult {
    DNSRecordResult {
        id: format!("id-{}", name),
        name: name.to_string(),
        content: "1.2.3.4".to_string(),
        locked: false,
        proxied: false,
        ttl: 1,
        zone_id: "zone-1".to_string(),
        modified_on: "2023-01-01T00:00:00Z".to_string(),
    }
}

#[test]
fn only_configured_records_are_kept_in_provider_order() {
    let envelope = CloudFlareResult {
        result: Some(vec![record("b.example.com"), record("x.example.com"), record(
            "a.example.com",
        )]),
        success: true,
        errors: None,
    };
    let names = vec!["a.example.com".to_string(), "b.example.com".to_string()];
    let kept = process_fetch_response(&envelope, &names).expect("a successful envelope");
    let kept_names: Vec<&str> = kept.iter().map(|r| r.name.as_str()).collect();
    assert_eq!(kept_names, vec!["b.example.com", "a.example.com"]);
}

#[test]
fn unsuccessful_envelope_yields_provider_error() {
    let envelope = CloudFlareResult {
        result: None,
        success: false,
        errors: Some(vec![CloudFlareError { code: 1003, message: "Invalid zone".to_string() }]),
    };
    let names = vec!["a.example.com".to_string()];
    match process_fetch_response(&envelope, &names) {
        Err(ApiError::Provider(errors)) => {
            assert_eq!(errors.len(), 1);
            assert_eq!(errors[0].code, 1003);
            assert_eq!(errors[0].message, "Invalid zone");
        }
        _ => panic!("expected a provider error"),
    }
}

#[test]
fn unsuccessful_envelope_without_payload_yields_empty_provider_error() {
    let envelope = CloudFlareResult { result: None, success: false, errors: None };
    let names = vec!["a.example.com".to_string()];
    match process_fetch_response(&envelope, &names) {
        Err(ApiError::Provider(errors)) => assert!(errors.is_empty()),
        _ => panic!("expected a provider error"),
    }
}

#[test]
fn successful_envelope_without_records_is_malformed() {
    let envelope = CloudFlareResult { result: None, success: true, errors: None };
    let names = vec!["a.example.com".to_string()];
    match process_fetch_response(&envelope, &names) {
        Err(ApiError::Protocol(message)) => assert_eq!(message, "No records found!"),
        _ => panic!("expected a protocol error"),
    }
}

#[test]
fn empty_record_list_yields_empty_selection() {
    let envelope = CloudFlareResult { result: Some(Vec::new()), success: true, errors: None };
    let names = vec!["a.example.com".to_string()];
    let kept = process_fetch_response(&envelope, &names).expect("a successful envelope");
    assert!(kept.is_empty());
}

#[test]
fn name_list_membership() {
    let names = vec!["a.example.com".to_string(), "b.example.com".to_string()];
    assert!(name_list_contains(&names, &"a.example.com".to_string()));
    assert!(name_list_contains(&names, &"b.example.com".to_string()));
    assert!(!name_list_contains(&names, &"c.example.com".to_string()));
    assert!(!name_list_contains(&Vec::new(), &"a.example.com".to_string()));
}
