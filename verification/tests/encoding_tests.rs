use technitium_webhook::encoding::{form_urlencode, str_eq, u32_to_string, u64_to_string};
use technitium_webhook::technitium::models::{
    AddRecordPayload, AddRecordPayloadRecordData, RecordAData, RecordTXTData,
};

#[test]
fn test_add_record_payload_serialization_for_a_record() {
    let payload = AddRecordPayload {
        domain: "example.com".to_string(),
        ttl: Some(3600),
        data: AddRecordPayloadRecordData::A(RecordAData {
            ip_address: "1.1.1.1".to_string(),
        }),
        ..Default::default()
    };
    let serialized = form_urlencode(&payload.form_pairs());

    let expected = "domain=example.com&type=A&ipAddress=1.1.1.1&ttl=3600";

    assert_eq!(serialized, expected);
}

#[test]
fn test_add_record_payload_serialization_for_txt_record() {
    let payload = AddRecordPayload {
        domain: "example.com".to_string(),
        ttl: Some(3600),
        data: AddRecordPayloadRecordData::TXT(RecordTXTData {
            text: "v=spf1 include:example.com -all".to_string(),
        }),
        ..Default::default()
    };
    let serialized = form_urlencode(&payload.form_pairs());

    let expected = "domain=example.com&type=TXT&text=v%3Dspf1+include%3Aexample.com+-all&ttl=3600";

    assert_eq!(serialized, expected);
}

#[test]
fn form_urlencode_joins_pairs_with_ampersands() {
    let pairs = vec![
        ("user".to_string(), "admin".to_string()),
        ("pass".to_string(), "password123".to_string()),
    ];
    assert_eq!(form_urlencode(&pairs), "user=admin&pass=password123");
}

#[test]
fn form_urlencode_escapes_reserved_bytes() {
    let pairs = vec![("q".to_string(), "a&b=c?d/e".to_string())];
    assert_eq!(form_urlencode(&pairs), "q=a%26b%3Dc%3Fd%2Fe");
}

#[test]
fn form_urlencode_keeps_unreserved_bytes() {
    let pairs = vec![("k".to_string(), "AZaz09*-._".to_string())];
    assert_eq!(form_urlencode(&pairs), "k=AZaz09*-._");
}

#[test]
fn form_urlencode_turns_spaces_into_plus() {
    let pairs = vec![("note".to_string(), "two words".to_string())];
    assert_eq!(form_urlencode(&pairs), "note=two+words");
}

#[test]
fn form_urlencode_escapes_multibyte_text_bytewise() {
    let pairs = vec![("s".to_string(), "é".to_string())];
    assert_eq!(form_urlencode(&pairs), "s=%C3%A9");
}

#[test]
fn form_urlencode_of_no_pairs_is_empty() {
    let pairs: Vec<(String, String)> = Vec::new();
    assert_eq!(form_urlencode(&pairs), "");
}

#[test]
fn decimal_rendering_matches_display() {
    assert_eq!(u32_to_string(0), "0");
    assert_eq!(u32_to_string(7), "7");
    assert_eq!(u32_to_string(3600), "3600");
    assert_eq!(u32_to_string(u32::MAX), "4294967295");
    assert_eq!(u64_to_string(u64::MAX), "18446744073709551615");
}

#[test]
fn str_eq_compares_contents() {
    assert!(str_eq("ok", "ok"));
    assert!(!str_eq("ok", "error"));
    assert!(!str_eq("", "a"));
    assert!(str_eq("", ""));
}
