//! The codec between the webhook record model and the backend's typed
//! records: one endpoint target per physical backend record.
//!
//! Listings map backend records to endpoints, dropping record types the
//! adapter does not model; change application maps a record type and one
//! target value back to the backend's tagged data, failing softly on an
//! unsupported type so that callers can skip it with a warning.

use crate::encoding::str_eq;
use crate::models::Endpoint;
use crate::models::ProviderSpecificProperty;
use crate::technitium::models::RecordAAAAData;
use crate::technitium::models::RecordAData;
use crate::technitium::models::RecordCNAMEData;
use crate::technitium::models::RecordData;
use crate::technitium::models::RecordInfo;
use crate::technitium::models::RecordTXTData;
use vstd::prelude::*;
use vstd::string::*;

verus! {

/// The record types the adapter manages.
pub open spec fn is_supported_type(rt: Seq<char>) -> bool {
    rt == "A"@ || rt == "AAAA"@ || rt == "CNAME"@ || rt == "TXT"@
}

/// The backend record data for one target value of a supported record
/// type; `None` for any other type.
pub open spec fn backend_data_for(rt: Seq<char>, target: String) -> Option<RecordData> {
    if rt == "A"@ {
        Some(RecordData::A(RecordAData { ip_address: target }))
    } else if rt == "AAAA"@ {
        Some(RecordData::AAAA(RecordAAAAData { ip_address: target }))
    } else if rt == "CNAME"@ {
        Some(RecordData::CNAME(RecordCNAMEData { cname: target }))
    } else if rt == "TXT"@ {
        Some(RecordData::TXT(RecordTXTData { text: target }))
    } else {
        None
    }
}

/// The record type an endpoint built from this backend data carries.
pub open spec fn endpoint_record_type(d: RecordData) -> Seq<char> {
    match d {
        RecordData::A(_) => "A"@,
        RecordData::AAAA(_) => "AAAA"@,
        RecordData::CNAME(_) => "CNAME"@,
        RecordData::TXT(_) => "TXT"@,
        RecordData::Other { record_type, .. } => record_type@,
    }
}

/// The one target value an endpoint built from this backend data carries.
pub open spec fn endpoint_target(d: RecordData) -> String
    recommends
        !(d is Other),
{
    match d {
        RecordData::A(a) => a.ip_address,
        RecordData::AAAA(a) => a.ip_address,
        RecordData::CNAME(c) => c.cname,
        RecordData::TXT(t) => t.text,
        RecordData::Other { data, .. } => data,
    }
}

/// A change referenced a record type the adapter does not manage; callers
/// skip the one target with a warning rather than failing the batch.
#[derive(Debug, Clone, PartialEq, Eq)]
pub struct UnsupportedRecordType {
    pub record_type: String,
}

/// Decides whether a record type is one of the four the adapter manages.
pub fn is_supported(record_type: &str) -> (r: bool)
    ensures
        r == is_supported_type(record_type@),
{
    str_eq(record_type, "A") || str_eq(record_type, "AAAA") || str_eq(record_type, "CNAME")
        || str_eq(record_type, "TXT")
}

/// Maps one target value of a record type to the backend's tagged record
/// data; an unsupported type is returned to the caller to skip.
pub fn to_backend_payload(record_type: &str, target: String) -> (r: Result<
    RecordData,
    UnsupportedRecordType,
>)
    ensures
        r is Ok <==> is_supported_type(record_type@),
        r matches Ok(d) ==> Some(d) == backend_data_for(record_type@, target),
        r matches Err(e) ==> e.record_type@ == record_type@,
{
    if str_eq(record_type, "A") {
        Ok(RecordData::A(RecordAData { ip_address: target }))
    } else if str_eq(record_type, "AAAA") {
        Ok(RecordData::AAAA(RecordAAAAData { ip_address: target }))
    } else if str_eq(record_type, "CNAME") {
        Ok(RecordData::CNAME(RecordCNAMEData { cname: target }))
    } else if str_eq(record_type, "TXT") {
        Ok(RecordData::TXT(RecordTXTData { text: target }))
    } else {
        Err(UnsupportedRecordType { record_type: record_type.to_owned() })
    }
}

/// Maps one listed backend record to an endpoint carrying exactly one
/// target; records of a type the adapter does not model yield `None` and
/// are dropped from listings.
pub fn to_endpoint(record: RecordInfo) -> (r: Option<Endpoint>)
    ensures
        r is Some <==> !(record.data is Other),
        r matches Some(ep) ==> (ep.dns_name == record.name && ep.record_type@
            == endpoint_record_type(record.data) && ep.targets@ == seq![
            endpoint_target(record.data),
        ] && ep.record_ttl == Some(record.ttl) && ep.set_identifier@ == Seq::<char>::empty()
            && ep.labels@ == Seq::<(String, String)>::empty() && ep.provider_specific@ == Seq::<
            ProviderSpecificProperty,
        >::empty()),
{
    let RecordInfo { disabled: _, name, ttl, data } = record;
    match data {
        RecordData::A(a) => Some(
            Endpoint {
                dns_name: name,
                targets: vec![a.ip_address],
                record_type: String::from_str("A"),
                record_ttl: Some(ttl),
                set_identifier: String::new(),
                labels: Vec::new(),
                provider_specific: Vec::new(),
            },
        ),
        RecordData::AAAA(a) => Some(
            Endpoint {
                dns_name: name,
                targets: vec![a.ip_address],
                record_type: String::from_str("AAAA"),
                record_ttl: Some(ttl),
                set_identifier: String::new(),
                labels: Vec::new(),
                provider_specific: Vec::new(),
            },
        ),
        RecordData::CNAME(c) => Some(
            Endpoint {
                dns_name: name,
                targets: vec![c.cname],
                record_type: String::from_str("CNAME"),
                record_ttl: Some(ttl),
                set_identifier: String::new(),
                labels: Vec::new(),
                provider_specific: Vec::new(),
            },
        ),
        RecordData::TXT(t) => Some(
            Endpoint {
                dns_name: name,
                targets: vec![t.text],
                record_type: String::from_str("TXT"),
                record_ttl: Some(ttl),
                set_identifier: String::new(),
                labels: Vec::new(),
                provider_specific: Vec::new(),
            },
        ),
        RecordData::Other { .. } => None,
    }
}

/// Round trip: for every supported record type and target value, the
/// backend data built for them is itself supported, and the endpoint
/// fields read back from it are exactly that type and that one value.
pub proof fn lemma_codec_round_trip(record_type: Seq<char>, target: String)
    requires
        is_supported_type(record_type),
    ensures
        backend_data_for(record_type, target) is Some,
        !(backend_data_for(record_type, target)->0 is Other),
        endpoint_record_type(backend_data_for(record_type, target)->0) == record_type,
        endpoint_target(backend_data_for(record_type, target)->0) == target,
{
}

} // verus!
