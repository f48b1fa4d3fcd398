use dns_reconciler::errors::ProviderError;
use dns_reconciler::reconcile::{find_matching_record, reconcile_outcome, Action};
use dns_reconciler::records::{DesiredRecord, DnsRecord, HetznerConfig, HetznerDns, RecordType};

fn provider() -> HetznerDns {
    HetznerDns {
        config: HetznerConfig {
            api_url: "https://dns.example.test/api/v1".to_string(),
            dns_zone_id: "z".to_string(),
            dns_token: "token".to_string(),
        },
    }
}

fn record(id: &str, zone: &str, type_: RecordType, name: &str, value: &str, ttl: u64) -> DnsRecord {
    DnsRecord {
        id: id.to_string(),
        zone_id: zone.to_string(),
        type_,
        name: name.to_string(),
        value: value.to_string(),
        ttl,
    }
}

fn desired(hostname: &str, type_: RecordType, value: &str, ttl: u64) -> DesiredRecord {
    DesiredRecord {
        hostname: hostname.to_string(),
        type_,
        value: value.to_string(),
        ttl,
    }
}

#[test]
fn ttl_change_updates_in_place() {
    let dns = provider();
    let existing = vec![record("1", "z", RecordType::A, "app.example.com", "1.2.3.4", 300)];
    let d = desired("app.example.com", RecordType::A, "1.2.3.4", 600);
    match dns.decide_action(&d, &existing) {
        Action::Update(u) => {
            assert_eq!(u.id, "1");
            assert_eq!(u.zone_id, "z");
            assert_eq!(u.type_, RecordType::A);
            assert_eq!(u.name, "app.example.com");
            assert_eq!(u.value, "1.2.3.4");
            assert_eq!(u.ttl, 600);
        }
        other => panic!("expected an update, got {:?}", other),
    }
}

#[test]
fn new_host_creates() {
    let dns = provider();
    let existing: Vec<DnsRecord> = vec![];
    let d = desired("new.example.com", RecordType::A, "5.6.7.8", 60);
    match dns.decide_action(&d, &existing) {
        Action::Create(c) => {
            assert_eq!(c.zone_id, "z");
            assert_eq!(c.type_, RecordType::A);
            assert_eq!(c.name, "new.example.com");
            assert_eq!(c.value, "5.6.7.8");
            assert_eq!(c.ttl, 60);
        }
        other => panic!("expected a creation, got {:?}", other),
    }
}

#[test]
fn unchanged_record_is_kept() {
    let dns = provider();
    let existing = vec![
        record("7", "z", RecordType::Cname, "alias.example.com", "app.example.com", 300),
        record("8", "z", RecordType::A, "app.example.com", "1.2.3.4", 300),
    ];
    let d = desired("app.example.com", RecordType::A, "1.2.3.4", 300);
    let action = dns.decide_action(&d, &existing);
    match &action {
        Action::Keep(r) => {
            assert_eq!(r.id, "8");
            assert_eq!(r.zone_id, "z");
            assert_eq!(r.value, "1.2.3.4");
            assert_eq!(r.ttl, 300);
        }
        other => panic!("expected a no-op, got {:?}", other),
    }
    match reconcile_outcome(action, None) {
        Ok(r) => assert_eq!(r.id, "8"),
        Err(e) => panic!("no-op must succeed, got {:?}", e),
    }
}

#[test]
fn value_change_updates_in_place() {
    let dns = provider();
    let existing = vec![record("4", "z", RecordType::Txt, "app.example.com", "old", 120)];
    let d = desired("app.example.com", RecordType::Txt, "new", 120);
    match dns.decide_action(&d, &existing) {
        Action::Update(u) => {
            assert_eq!(u.id, "4");
            assert_eq!(u.value, "new");
            assert_eq!(u.ttl, 120);
        }
        other => panic!("expected an update, got {:?}", other),
    }
}

#[test]
fn first_match_in_list_order_wins() {
    let dns = provider();
    let existing = vec![
        record("a", "z", RecordType::A, "dup.example.com", "1.1.1.1", 60),
        record("b", "z", RecordType::A, "dup.example.com", "2.2.2.2", 60),
    ];
    let d = desired("dup.example.com", RecordType::A, "3.3.3.3", 60);
    assert_eq!(find_matching_record(&existing, &d), Some(0));
    match dns.decide_action(&d, &existing) {
        Action::Update(u) => assert_eq!(u.id, "a"),
        other => panic!("expected an update of the first match, got {:?}", other),
    }
}

#[test]
fn matching_is_case_sensitive() {
    let dns = provider();
    let existing = vec![record("1", "z", RecordType::A, "App.example.com", "1.2.3.4", 300)];
    let d = desired("app.example.com", RecordType::A, "1.2.3.4", 300);
    assert_eq!(find_matching_record(&existing, &d), None);
    assert!(matches!(dns.decide_action(&d, &existing), Action::Create(_)));
}

#[test]
fn record_type_must_match() {
    let dns = provider();
    let existing = vec![record("1", "z", RecordType::Aaaa, "app.example.com", "::1", 300)];
    let d = desired("app.example.com", RecordType::A, "1.2.3.4", 300);
    assert_eq!(find_matching_record(&existing, &d), None);
    assert!(matches!(dns.decide_action(&d, &existing), Action::Create(_)));
}

#[test]
fn listing_failure_propagates_transport_error() {
    let dns = provider();
    let d = desired("app.example.com", RecordType::A, "1.2.3.4", 300);
    match dns.reconcile_plan(&d, Err(ProviderError::TransportError)) {
        Err(ProviderError::TransportError) => {}
        other => panic!("expected the transport error back, got {:?}", other),
    }
}

#[test]
fn listing_failure_propagates_rejection_with_status_and_body() {
    let dns = provider();
    let d = desired("app.example.com", RecordType::A, "1.2.3.4", 300);
    let listing = Err(ProviderError::ProviderRejected {
        status: 401,
        body: "invalid token".to_string(),
    });
    match dns.reconcile_plan(&d, listing) {
        Err(ProviderError::ProviderRejected { status, body }) => {
            assert_eq!(status, 401);
            assert_eq!(body, "invalid token");
        }
        other => panic!("expected the rejection back, got {:?}", other),
    }
}

#[test]
fn listing_failure_propagates_decode_error() {
    let dns = provider();
    let d = desired("app.example.com", RecordType::A, "1.2.3.4", 300);
    match dns.reconcile_plan(&d, Err(ProviderError::DecodeError)) {
        Err(ProviderError::DecodeError) => {}
        other => panic!("expected the decode error back, got {:?}", other),
    }
}

#[test]
fn successful_listing_is_decided() {
    let dns = provider();
    let d = desired("app.example.com", RecordType::A, "1.2.3.4", 300);
    let listing = Ok(vec![record("1", "z", RecordType::A, "app.example.com", "1.2.3.4", 300)]);
    match dns.reconcile_plan(&d, listing) {
        Ok(Action::Keep(r)) => assert_eq!(r.id, "1"),
        other => panic!("expected a no-op plan, got {:?}", other),
    }
}

#[test]
fn write_reply_is_returned_unchanged() {
    let dns = provider();
    let existing = vec![record("1", "z", RecordType::A, "app.example.com", "1.2.3.4", 300)];
    let d = desired("app.example.com", RecordType::A, "1.2.3.4", 600);
    let action = dns.decide_action(&d, &existing);
    let reply = record("1", "z", RecordType::A, "app.example.com", "1.2.3.4", 600);
    match reconcile_outcome(action, Some(Ok(reply))) {
        Ok(r) => {
            assert_eq!(r.id, "1");
            assert_eq!(r.ttl, 600);
        }
        Err(e) => panic!("expected the provider's record back, got {:?}", e),
    }
}

#[test]
fn write_failure_is_returned_unchanged() {
    let dns = provider();
    let existing: Vec<DnsRecord> = vec![];
    let d = desired("new.example.com", RecordType::A, "5.6.7.8", 60);
    let action = dns.decide_action(&d, &existing);
    let reply = Err(ProviderError::ProviderRejected {
        status: 422,
        body: "conflicting record".to_string(),
    });
    match reconcile_outcome(action, Some(reply)) {
        Err(ProviderError::ProviderRejected { status, .. }) => assert_eq!(status, 422),
        other => panic!("expected the rejection back, got {:?}", other),
    }
}

#[test]
fn second_pass_after_update_is_a_noop() {
    let dns = provider();
    let mut records = vec![record("1", "z", RecordType::A, "app.example.com", "1.2.3.4", 300)];
    let d = desired("app.example.com", RecordType::A, "1.2.3.4", 600);
    match dns.decide_action(&d, &records) {
        Action::Update(u) => records[0] = u,
        other => panic!("expected an update on the first pass, got {:?}", other),
    }
    assert!(matches!(dns.decide_action(&d, &records), Action::Keep(_)));
}

#[test]
fn second_pass_after_create_is_a_noop() {
    let dns = provider();
    let mut records: Vec<DnsRecord> = vec![];
    let d = desired("new.example.com", RecordType::A, "5.6.7.8", 60);
    match dns.decide_action(&d, &records) {
        Action::Create(c) => records.push(DnsRecord {
            id: "assigned".to_string(),
            zone_id: c.zone_id,
            type_: c.type_,
            name: c.name,
            value: c.value,
            ttl: c.ttl,
        }),
        other => panic!("expected a creation on the first pass, got {:?}", other),
    }
    assert!(matches!(dns.decide_action(&d, &records), Action::Keep(_)));
}
