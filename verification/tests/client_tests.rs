use technitium_webhook::technitium::client::{
    check_http_status, classify_envelope, ApiRequest, TechnitiumClient, TechnitiumError,
};
use technitium_webhook::technitium::models::{
    AddRecordPayload, AddRecordPayloadRecordData, CreateZonePayload, DeleteRecordPayload,
    DeleteRecordPayloadRecordData, GetRecordsPayload, ListZonesPayload, LoginPayload, RecordAData,
    RecordTXTData, ZoneType,
};

fn client() -> TechnitiumClient {
    TechnitiumClient::new(
        "http://dns.internal:5380".to_string(),
        "sample_token".to_string(),
        30,
    )
}

#[test]
fn login_request_carries_credentials_without_token() {
    let req: ApiRequest = client().login(LoginPayload {
        username: "admin".to_string(),
        password: "password123".to_string(),
    });
    assert_eq!(req.url, "http://dns.internal:5380/api/user/login");
    assert_eq!(req.body, "user=admin&pass=password123");
}

#[test]
fn create_zone_request_attaches_token_first() {
    let req = client().create_zone(CreateZonePayload {
        zone: "example.com".to_string(),
        zone_type: ZoneType::Primary,
        ..Default::default()
    });
    assert_eq!(req.url, "http://dns.internal:5380/api/zones/create");
    assert_eq!(req.body, "token=sample_token&zone=example.com&type=Primary");
}

#[test]
fn list_zones_request_carries_paging() {
    let req = client().list_zones(ListZonesPayload {
        zone: "example.com".to_string(),
        page_number: Some(2),
        zones_per_page: Some(100),
    });
    assert_eq!(req.url, "http://dns.internal:5380/api/zones/list");
    assert_eq!(
        req.body,
        "token=sample_token&zone=example.com&pageNumber=2&zonesPerPage=100"
    );
}

#[test]
fn add_record_request_carries_ttl_when_present() {
    let req = client().add_record(AddRecordPayload {
        domain: "example.com".to_string(),
        ttl: Some(3600),
        data: AddRecordPayloadRecordData::A(RecordAData {
            ip_address: "3.3.3.3".to_string(),
        }),
        ..Default::default()
    });
    assert_eq!(req.url, "http://dns.internal:5380/api/zones/records/add");
    assert_eq!(
        req.body,
        "token=sample_token&domain=example.com&type=A&ipAddress=3.3.3.3&ttl=3600"
    );
}

#[test]
fn add_record_request_omits_absent_ttl() {
    let req = client().add_record(AddRecordPayload {
        domain: "a.example.com".to_string(),
        data: AddRecordPayloadRecordData::TXT(RecordTXTData {
            text: "hello".to_string(),
        }),
        ..Default::default()
    });
    assert_eq!(
        req.body,
        "token=sample_token&domain=a.example.com&type=TXT&text=hello"
    );
}

#[test]
fn get_records_request_lists_whole_zone() {
    let req = client().get_records(GetRecordsPayload {
        domain: "example.com".to_string(),
        zone: None,
        list_zone: Some(true),
    });
    assert_eq!(req.url, "http://dns.internal:5380/api/zones/records/get");
    assert_eq!(
        req.body,
        "token=sample_token&domain=example.com&listZone=true"
    );
}

#[test]
fn delete_record_request_carries_record_data() {
    let req = client().delete_record(DeleteRecordPayload {
        domain: "example.com".to_string(),
        data: DeleteRecordPayloadRecordData::A(RecordAData {
            ip_address: "1.2.3.4".to_string(),
        }),
        zone: None,
    });
    assert_eq!(req.url, "http://dns.internal:5380/api/zones/records/delete");
    assert_eq!(
        req.body,
        "token=sample_token&domain=example.com&type=A&ipAddress=1.2.3.4"
    );
}

#[test]
fn envelope_ok_with_data_unwraps_it() {
    let r = classify_envelope("ok".to_string(), None, Some(42u32));
    assert_eq!(r, Ok(42));
}

#[test]
fn envelope_ok_without_data_is_an_error() {
    let r: Result<u32, TechnitiumError> = classify_envelope("ok".to_string(), None, None);
    assert_eq!(
        r,
        Err(TechnitiumError::ApiError("Missing response data".to_string()))
    );
}

#[test]
fn envelope_error_surfaces_backend_message() {
    let r: Result<u32, TechnitiumError> = classify_envelope(
        "error".to_string(),
        Some("zone already exists".to_string()),
        Some(1),
    );
    assert_eq!(
        r,
        Err(TechnitiumError::ApiError("zone already exists".to_string()))
    );
}

#[test]
fn envelope_error_without_message_says_unknown() {
    let r: Result<u32, TechnitiumError> = classify_envelope("error".to_string(), None, None);
    assert_eq!(
        r,
        Err(TechnitiumError::ApiError("Unknown server error".to_string()))
    );
}

#[test]
fn envelope_invalid_token_is_distinct() {
    let r: Result<u32, TechnitiumError> =
        classify_envelope("invalid-token".to_string(), None, None);
    assert_eq!(r, Err(TechnitiumError::InvalidToken));
}

#[test]
fn envelope_unknown_status_is_carried_verbatim() {
    let r: Result<u32, TechnitiumError> = classify_envelope("busy".to_string(), None, None);
    assert_eq!(
        r,
        Err(TechnitiumError::ApiError(
            "Unexpected response status (busy)".to_string()
        ))
    );
}

#[test]
fn http_success_range_is_accepted() {
    assert!(check_http_status(200).is_ok());
    assert!(check_http_status(204).is_ok());
    assert!(check_http_status(299).is_ok());
}

#[test]
fn http_failure_carries_the_code() {
    assert_eq!(
        check_http_status(404),
        Err(TechnitiumError::ApiError(
            "Server responded with non-successful status code 404".to_string()
        ))
    );
    assert!(check_http_status(300).is_err());
    assert!(check_http_status(199).is_err());
}

#[test]
fn technitium_error_messages_render_like_the_wire() {
    assert_eq!(
        TechnitiumError::RequestError("connection refused".to_string()).message(),
        "Request error: connection refused"
    );
    assert_eq!(
        TechnitiumError::ApiError("boom".to_string()).message(),
        "API error: boom"
    );
    assert_eq!(
        TechnitiumError::InvalidToken.message(),
        "API error: Invalid token"
    );
}
