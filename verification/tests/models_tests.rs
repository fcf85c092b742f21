use technitium_webhook::app::AppError;
use technitium_webhook::models::Endpoint;
use technitium_webhook::technitium::client::TechnitiumError;
use technitium_webhook::technitium::models::{
    AddRecordPayload, AddRecordPayloadRecordData, DeleteRecordPayload,
    DeleteRecordPayloadRecordData, GetRecordsPayload, ListZonesPayload, Protocol, RecordAAAAData,
    RecordAData, RecordAAAAUpdate, RecordAUpdate, RecordCNAMEData, RecordCNAMEUpdate, RecordData,
    RecordTXTData, RecordTXTUpdate, ZoneType,
};

#[test]
fn default_endpoint_is_empty() {
    let ep = Endpoint::default();
    assert_eq!(ep.dns_name, "");
    assert!(ep.targets.is_empty());
    assert_eq!(ep.record_type, "");
    assert_eq!(ep.record_ttl, None);
    assert_eq!(ep.set_identifier, "");
    assert!(ep.labels.is_empty());
    assert!(ep.provider_specific.is_empty());
}

#[test]
fn default_payloads_have_every_optional_field_absent() {
    let add = AddRecordPayload::default();
    assert_eq!(add.domain, "");
    assert!(matches!(
        add.data,
        AddRecordPayloadRecordData::Other { ref record_type, ref data }
            if record_type.is_empty() && data.is_empty()
    ));
    assert_eq!(add.zone, None);
    assert_eq!(add.ttl, None);
    assert_eq!(add.overwrite, None);
    assert_eq!(add.comments, None);
    assert_eq!(add.expiry_ttl, None);

    let del = DeleteRecordPayload::default();
    assert_eq!(del.domain, "");
    assert_eq!(del.zone, None);

    let get = GetRecordsPayload::default();
    assert_eq!(get.domain, "");
    assert_eq!(get.zone, None);
    assert_eq!(get.list_zone, None);

    let list = ListZonesPayload::default();
    assert_eq!(list.zone, "");
    assert_eq!(list.page_number, None);
    assert_eq!(list.zones_per_page, None);

    assert_eq!(ZoneType::default(), ZoneType::Primary);
    assert!(matches!(Protocol::default(), Protocol::Udp));
}

#[test]
fn record_data_converts_variant_for_variant() {
    let a = RecordData::A(RecordAData {
        ip_address: "1.2.3.4".to_string(),
    });
    assert_eq!(
        AddRecordPayloadRecordData::from(a),
        AddRecordPayloadRecordData::A(RecordAData {
            ip_address: "1.2.3.4".to_string()
        })
    );

    let other = RecordData::Other {
        record_type: "MX".to_string(),
        data: "\"mail\"".to_string(),
    };
    assert_eq!(
        DeleteRecordPayloadRecordData::from(other),
        DeleteRecordPayloadRecordData::Other {
            record_type: "MX".to_string(),
            data: "\"mail\"".to_string(),
        }
    );
}

#[test]
fn scalar_data_wraps_into_payload_variants() {
    assert_eq!(
        AddRecordPayloadRecordData::from(RecordTXTData {
            text: "hello".to_string()
        }),
        AddRecordPayloadRecordData::TXT(RecordTXTData {
            text: "hello".to_string()
        })
    );
    assert_eq!(
        DeleteRecordPayloadRecordData::from(RecordAAAAData {
            ip_address: "::1".to_string()
        }),
        DeleteRecordPayloadRecordData::AAAA(RecordAAAAData {
            ip_address: "::1".to_string()
        })
    );
}

#[test]
fn record_updates_start_from_the_current_value() {
    let up = RecordAUpdate::from(RecordAData {
        ip_address: "1.2.3.4".to_string(),
    });
    assert_eq!(up.current.ip_address, "1.2.3.4");
    assert_eq!(up.ip_address, "1.2.3.4");

    let up = RecordAAAAUpdate::from(RecordAAAAData {
        ip_address: "::1".to_string(),
    });
    assert_eq!(up.current.ip_address, "::1");
    assert_eq!(up.ip_address, "::1");

    let up = RecordCNAMEUpdate::from(RecordCNAMEData {
        cname: "example.com".to_string(),
    });
    assert_eq!(up.current.cname, "example.com");
    assert_eq!(up.cname, "example.com");

    let up = RecordTXTUpdate::from(RecordTXTData {
        text: "v=spf1".to_string(),
    });
    assert_eq!(up.current.text, "v=spf1");
    assert_eq!(up.text, "v=spf1");
}

#[test]
fn zone_type_and_protocol_names_match_the_wire() {
    assert_eq!(ZoneType::Primary.name(), "Primary");
    assert_eq!(ZoneType::Secondary.name(), "Secondary");
    assert_eq!(ZoneType::Stub.name(), "Stub");
    assert_eq!(ZoneType::Forwarder.name(), "Forwarder");
    assert_eq!(ZoneType::SecondaryForwarder.name(), "SecondaryForwarder");
    assert_eq!(ZoneType::Catalog.name(), "Catalog");
    assert_eq!(ZoneType::SecondaryCatalog.name(), "SecondaryCatalog");
    assert_eq!(Protocol::Udp.name(), "Udp");
    assert_eq!(Protocol::Tcp.name(), "Tcp");
    assert_eq!(Protocol::Tls.name(), "Tls");
    assert_eq!(Protocol::Https.name(), "Https");
    assert_eq!(Protocol::Quic.name(), "Quic");
}

#[test]
fn app_errors_render_their_cause() {
    let e = AppError::JsonSerializeError("bad utf-8".to_string());
    assert_eq!(e.message(), "Failed to serialize JSON: bad utf-8");
    assert_eq!(e.status_code(), 500);

    let e = AppError::TechnitiumError(TechnitiumError::ApiError("boom".to_string()));
    assert_eq!(
        e.message(),
        "Failed to communicate with Technitium server: API error: boom"
    );
    assert_eq!(e.status_code(), 500);
}
