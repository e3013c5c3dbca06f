use cloudflare_dns_updater::api::CloudFlareError;
use cloudflare_dns_updater::api::CloudFlareResult;
use cloudflare_dns_updater::api::CurrentIP;
use cloudflare_dns_updater::api::DNSRecordResult;
use cloudflare_dns_updater::api::IPAddresses;
use cloudflare_dns_updater::config_loader::Config;
use cloudflare_dns_updater::config_loader::Key;
use cloudflare_dns_updater::config_loader::Zone;
use cloudflare_dns_updater::fetch::ApiError;
use cloudflare_dns_updater::reconcile::plan_cycle;
use cloudflare_dns_updater::reconcile::FamilyPlan;
use cloudflare_dns_updater::reconcile::FetchPair;
use cloudflare_dns_updater::reconcile::RecordAction;

fn record(name: &str, content: &str) -> DNSRecordResult {
    DNSRecordResult {
        id: format!("id-{}", name),
        name: name.to_string(),
        content: content.to_string(),
        locked: false,
        proxied: false,
        ttl: 120,
        zone_id: "zone-2".to_string(),
        modified_on: "2023-01-01T00:00:00Z".to_string(),
    }
}

fn zone(zone_id: &str, a_name: &str) -> Zone {
    Zone {
        zone_id: zone_id.to_string(),
        a_records: vec![a_name.to_string()],
        aaaa_records: Vec::new(),
    }
}

#[test]
fn failed_zone_does_not_stop_the_next_zone() {
    let config = Config {
        update_threshold: 60,
        keys: vec![Key {
            auth_key: "test-token".to_string(),
            zones: vec![zone("zone-1", "a.example.com"), zone("zone-2", "b.example.com")],
        }],
    };
    let addrs = IPAddresses { ipv4: Some("1.2.3.4".to_string()), ipv6: None };
    let failing = FetchPair {
        a: Err(ApiError::Provider(vec![CloudFlareError {
            code: 1003,
            message: "Invalid zone".to_string(),
        }])),
        aaaa: Ok(CloudFlareResult { result: Some(Vec::new()), success: true, errors: None }),
    };
    let healthy = FetchPair {
        a: Ok(CloudFlareResult {
            result: Some(vec![record("b.example.com", "1.2.3.3")]),
            success: true,
            errors: None,
        }),
        aaaa: Ok(CloudFlareResult { result: Some(Vec::new()), success: true, errors: None }),
    };
    let fetched = vec![vec![failing, healthy]];
    let plan = plan_cycle(&config, &addrs, &fetched);
    assert_eq!(plan.len(), 1);
    assert_eq!(plan[0].len(), 2);
    match &plan[0][0].a {
        FamilyPlan::FetchFailed(ApiError::Provider(errors)) => {
            assert_eq!(errors[0].code, 1003);
            assert_eq!(errors[0].message, "Invalid zone");
        }
        _ => panic!("expected the first zone's fetch failure to be kept"),
    }
    match &plan[0][1].a {
        FamilyPlan::Actions(actions) => {
            assert_eq!(actions.len(), 1);
            match &actions[0] {
                RecordAction::Update { body, .. } => {
                    assert_eq!(body.content, "1.2.3.4");
                    assert_eq!(body.record_type, "A");
                }
                _ => panic!("expected an update in the second zone"),
            }
        }
        _ => panic!("expected the second zone to be processed"),
    }
}

#[test]
fn empty_configuration_plans_nothing() {
    let config = Config { update_threshold: 60, keys: Vec::new() };
    let addrs = IPAddresses { ipv4: None, ipv6: None };
    let plan = plan_cycle(&config, &addrs, &Vec::new());
    assert!(plan.is_empty());
}

#[test]
fn address_pair_keeps_each_side_independently() {
    let both = IPAddresses::from_lookups(
        Some(CurrentIP { ip: "1.2.3.4".to_string() }),
        Some(CurrentIP { ip: "::1".to_string() }),
    );
    assert_eq!(both.ipv4.as_deref(), Some("1.2.3.4"));
    assert_eq!(both.ipv6.as_deref(), Some("::1"));

    let v4_only = IPAddresses::from_lookups(Some(CurrentIP { ip: "1.2.3.4".to_string() }), None);
    assert_eq!(v4_only.ipv4.as_deref(), Some("1.2.3.4"));
    assert!(v4_only.ipv6.is_none());

    let neither = IPAddresses::from_lookups(None, None);
    assert!(neither.ipv4.is_none());
    assert!(neither.ipv6.is_none());
}
