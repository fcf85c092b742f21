use technitium_webhook::app::{AppError, AppState};
use technitium_webhook::applier::{plan_changes, PlannedCall};
use technitium_webhook::codec::{to_backend_payload, to_endpoint};
use technitium_webhook::config::Config;
use technitium_webhook::handlers::{
    adjust_endpoints, apply_record, get_records, health_check, negotiate_domain_filter,
    records_to_endpoints, ExtDnsJson,
};
use technitium_webhook::models::{Changes, Endpoint};
use technitium_webhook::technitium::client::TechnitiumClient;
use technitium_webhook::technitium::models::{
    AddRecordPayloadRecordData, DeleteRecordPayloadRecordData, RecordAData, RecordData, RecordInfo,
};

fn state_with_readiness(is_ready: bool) -> AppState {
    AppState {
        config: Config {
            technitium_url: "http://dns.internal:5380".to_string(),
            zone: "example.com".to_string(),
            ..Default::default()
        },
        is_ready,
        client: TechnitiumClient::new(
            "http://dns.internal:5380".to_string(),
            "sample_token".to_string(),
            10,
        ),
        use_static_token: false,
    }
}

fn endpoint(dns_name: &str, record_type: &str, targets: &[&str]) -> Endpoint {
    Endpoint {
        dns_name: dns_name.to_string(),
        record_type: record_type.to_string(),
        targets: targets.iter().map(|t| t.to_string()).collect(),
        ..Default::default()
    }
}

fn empty_changes() -> Changes {
    Changes {
        create: None,
        update_old: None,
        update_new: None,
        delete: None,
    }
}

#[test]
fn readiness_gating_rejects_every_operation() {
    let state = state_with_readiness(false);
    assert_eq!(health_check(&state), Err(AppError::NotReady));
    assert!(matches!(
        negotiate_domain_filter(&state),
        Err(AppError::NotReady)
    ));
    assert!(matches!(get_records(&state), Err(AppError::NotReady)));
    assert!(matches!(
        adjust_endpoints(&state, vec![endpoint("a.example.com", "A", &["1.2.3.4"])]),
        Err(AppError::NotReady)
    ));
    assert!(matches!(
        apply_record(&state, &empty_changes()),
        Err(AppError::NotReady)
    ));
    assert_eq!(
        AppError::NotReady.message(),
        "Service not ready yet. Try again later."
    );
    assert_eq!(AppError::NotReady.status_code(), 503);
}

#[test]
fn negotiate_falls_back_to_the_managed_zone() {
    let state = state_with_readiness(true);
    let filters = negotiate_domain_filter(&state).unwrap();
    assert_eq!(filters.filters, vec!["example.com".to_string()]);
}

#[test]
fn negotiate_prefers_configured_filters() {
    let mut state = state_with_readiness(true);
    state.config.domain_filters = Some(vec!["a.org".to_string(), "b.org".to_string()]);
    let filters = negotiate_domain_filter(&state).unwrap();
    assert_eq!(
        filters.filters,
        vec!["a.org".to_string(), "b.org".to_string()]
    );
}

#[test]
fn get_records_asks_for_the_whole_zone() {
    let state = state_with_readiness(true);
    let req = get_records(&state).unwrap();
    assert_eq!(req.url, "http://dns.internal:5380/api/zones/records/get");
    assert_eq!(
        req.body,
        "token=sample_token&domain=example.com&listZone=true"
    );
}

#[test]
fn listing_keeps_known_records_and_drops_the_rest() {
    let records = vec![
        RecordInfo {
            disabled: false,
            name: "example.com".to_string(),
            ttl: 300,
            data: RecordData::A(RecordAData {
                ip_address: "1.2.3.4".to_string(),
            }),
        },
        RecordInfo {
            disabled: false,
            name: "example.com".to_string(),
            ttl: 300,
            data: RecordData::Other {
                record_type: "MX".to_string(),
                data: "\"mail.example.com\"".to_string(),
            },
        },
    ];
    let endpoints = records_to_endpoints(&records);
    assert_eq!(endpoints.len(), 1);
    assert_eq!(endpoints[0].dns_name, "example.com");
    assert_eq!(endpoints[0].record_type, "A");
    assert_eq!(endpoints[0].targets, vec!["1.2.3.4".to_string()]);
    assert_eq!(endpoints[0].record_ttl, Some(300));
}

#[test]
fn adjustment_is_a_pass_through() {
    let state = state_with_readiness(true);
    let endpoints = vec![
        endpoint("a.example.com", "A", &["1.2.3.4"]),
        endpoint("b.example.com", "TXT", &["x"]),
    ];
    assert_eq!(
        adjust_endpoints(&state, endpoints.clone()),
        Ok(endpoints)
    );
}

#[test]
fn empty_change_set_plans_no_backend_call() {
    let state = state_with_readiness(true);
    let plan = apply_record(&state, &empty_changes()).unwrap();
    assert!(plan.noop);
    assert!(plan.calls.is_empty());
    assert!(plan.skipped.is_empty());

    let all_empty = Changes {
        create: Some(Vec::new()),
        update_old: Some(Vec::new()),
        update_new: Some(Vec::new()),
        delete: Some(Vec::new()),
    };
    let plan = apply_record(&state, &all_empty).unwrap();
    assert!(plan.noop);
    assert!(plan.calls.is_empty());
}

#[test]
fn deletions_are_issued_before_creations() {
    let changes = Changes {
        create: Some(vec![endpoint("www.example.com", "A", &["5.6.7.8"])]),
        update_old: None,
        update_new: None,
        delete: Some(vec![endpoint("www.example.com", "A", &["1.2.3.4"])]),
    };
    let plan = plan_changes(&changes);
    assert_eq!(plan.calls.len(), 2);
    match &plan.calls[0] {
        PlannedCall::Delete(p) => {
            assert_eq!(p.domain, "www.example.com");
            assert_eq!(
                p.data,
                DeleteRecordPayloadRecordData::A(RecordAData {
                    ip_address: "1.2.3.4".to_string()
                })
            );
        }
        other => panic!("expected a delete first, got {:?}", other),
    }
    match &plan.calls[1] {
        PlannedCall::Add(p) => {
            assert_eq!(p.domain, "www.example.com");
        }
        other => panic!("expected an add second, got {:?}", other),
    }
}

#[test]
fn update_lists_join_the_deletion_and_addition_sets() {
    let changes = Changes {
        create: None,
        update_old: Some(vec![endpoint("www.example.com", "A", &["1.1.1.1"])]),
        update_new: Some(vec![endpoint("www.example.com", "A", &["2.2.2.2"])]),
        delete: None,
    };
    let plan = plan_changes(&changes);
    assert_eq!(plan.calls.len(), 2);
    assert!(matches!(plan.calls[0], PlannedCall::Delete(_)));
    assert!(matches!(plan.calls[1], PlannedCall::Add(_)));
}

#[test]
fn unsupported_type_is_skipped_without_aborting_the_batch() {
    let changes = Changes {
        create: Some(vec![
            endpoint("mail.example.com", "MX", &["10 mail.example.com"]),
            endpoint("txt.example.com", "TXT", &["hello"]),
        ]),
        update_old: None,
        update_new: None,
        delete: None,
    };
    let plan = plan_changes(&changes);
    assert_eq!(plan.calls.len(), 1);
    match &plan.calls[0] {
        PlannedCall::Add(p) => assert_eq!(p.domain, "txt.example.com"),
        other => panic!("expected the TXT add to survive, got {:?}", other),
    }
    assert_eq!(plan.skipped.len(), 1);
    assert!(!plan.skipped[0].deletion);
    assert_eq!(plan.skipped[0].dns_name, "mail.example.com");
    assert_eq!(plan.skipped[0].record_type, "MX");
    assert!(!plan.noop);
}

#[test]
fn create_without_ttl_plans_one_add_without_ttl() {
    let changes = Changes {
        create: Some(vec![endpoint("a.example.com", "TXT", &["hello"])]),
        update_old: None,
        update_new: None,
        delete: None,
    };
    let plan = plan_changes(&changes);
    assert_eq!(plan.calls.len(), 1);
    match &plan.calls[0] {
        PlannedCall::Add(p) => {
            assert_eq!(p.domain, "a.example.com");
            assert_eq!(
                p.data,
                AddRecordPayloadRecordData::TXT(
                    technitium_webhook::technitium::models::RecordTXTData {
                        text: "hello".to_string()
                    }
                )
            );
            assert_eq!(p.ttl, None);
            assert_eq!(p.zone, None);
        }
        other => panic!("expected an add, got {:?}", other),
    }
}

#[test]
fn codec_round_trips_every_supported_type() {
    for (record_type, value) in [
        ("A", "1.2.3.4"),
        ("AAAA", "::1"),
        ("CNAME", "example.com"),
        ("TXT", "hello world"),
    ] {
        let data = to_backend_payload(record_type, value.to_string()).unwrap();
        let ep = to_endpoint(RecordInfo {
            disabled: false,
            name: "example.com".to_string(),
            ttl: 300,
            data,
        })
        .unwrap();
        assert_eq!(ep.record_type, record_type);
        assert_eq!(ep.targets, vec![value.to_string()]);
        assert_eq!(ep.dns_name, "example.com");
        assert_eq!(ep.record_ttl, Some(300));
    }
}

#[test]
fn codec_rejects_unsupported_types() {
    let err = to_backend_payload("MX", "10 mail.example.com".to_string()).unwrap_err();
    assert_eq!(err.record_type, "MX");
    assert!(to_backend_payload("a", "1.2.3.4".to_string()).is_err());
}

#[test]
fn listing_drops_opaque_records() {
    let ep = to_endpoint(RecordInfo {
        disabled: false,
        name: "sub.example.com".to_string(),
        ttl: 3600,
        data: RecordData::Other {
            record_type: "XXX".to_string(),
            data: "\"AA00\"".to_string(),
        },
    });
    assert_eq!(ep, None);
}

#[test]
fn webhook_media_type_is_versioned() {
    assert_eq!(
        ExtDnsJson::<()>::content_type(),
        "application/external.dns.webhook+json;version=1"
    );
}
