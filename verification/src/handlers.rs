//! The four webhook operations: negotiate filters, list records, adjust
//! endpoints, and apply changes — each checking readiness first.
//!
//! Handlers here do everything but the I/O: they test readiness, build
//! the backend request, translate listed records, and decompose change
//! batches. Serving them over HTTP is the surrounding server's job.

use crate::app::AppError;
use crate::app::AppState;
use crate::applier::ChangePlan;
use crate::applier::plan_calls;
use crate::applier::plan_changes;
use crate::applier::plan_skips;
use crate::codec::endpoint_record_type;
use crate::codec::endpoint_target;
use crate::codec::to_endpoint;
use crate::encoding::form_encoded_pairs;
use crate::models::Changes;
use crate::models::Endpoint;
use crate::models::Filters;
use crate::models::ProviderSpecificProperty;
use crate::models::additions_of;
use crate::models::deletions_of;
use crate::technitium::client::ApiRequest;
use crate::technitium::client::authenticated_pairs;
use crate::technitium::models::GetRecordsPayload;
use crate::technitium::models::RecordAAAAData;
use crate::technitium::models::RecordAData;
use crate::technitium::models::RecordCNAMEData;
use crate::technitium::models::RecordData;
use crate::technitium::models::RecordInfo;
use crate::technitium::models::RecordTXTData;
use crate::technitium::models::get_records_pairs;
use vstd::prelude::*;
use vstd::string::*;

verus! {

/// A response body that must be served under the webhook protocol's
/// versioned media type rather than plain JSON.
#[derive(Debug, Clone, Copy)]
#[must_use]
pub struct ExtDnsJson<T>(pub T);

impl<T> ExtDnsJson<T> {
    /// The versioned media type the webhook protocol requires on
    /// record-bearing responses.
    pub fn content_type() -> (r: String)
        ensures
            r@ == "application/external.dns.webhook+json;version=1"@,
    {
        String::from_str("application/external.dns.webhook+json;version=1")
    }
}

/// The health probe: succeeds exactly when the service is ready.
pub fn health_check(state: &AppState) -> (r: Result<(), AppError>)
    ensures
        r is Ok <==> state.is_ready,
        !state.is_ready ==> r == Err::<(), AppError>(AppError::NotReady),
{
    state.ensure_ready()
}

/// Copies a list of strings value for value.
fn clone_strings(v: &Vec<String>) -> (r: Vec<String>)
    ensures
        r@ == v@,
{
    let mut out: Vec<String> = Vec::new();
    for i in 0..v.len()
        invariant
            out@ == v@.take(i as int),
    {
        out.push(v[i].clone());
        assert(v@.take(i + 1) =~= v@.take(i as int).push(v@[i as int]));
    }
    assert(v@.take(v@.len() as int) =~= v@);
    out
}

/// Negotiates the domain filters: the configured list, or the managed
/// zone alone when none is configured. Fails fast while not ready.
pub fn negotiate_domain_filter(state: &AppState) -> (r: Result<Filters, AppError>)
    ensures
        r is Ok <==> state.is_ready,
        !state.is_ready ==> r == Err::<Filters, AppError>(AppError::NotReady),
        state.is_ready ==> (r matches Ok(f) && f.filters@ == (match state.config.domain_filters {
            Some(d) => d@,
            None => seq![state.config.zone],
        })),
{
    match state.ensure_ready() {
        Err(e) => return Err(e),
        Ok(()) => {},
    }
    let filters = match &state.config.domain_filters {
        Some(d) => clone_strings(d),
        None => {
            let mut v: Vec<String> = Vec::new();
            v.push(state.config.zone.clone());
            proof {
                assert(v@ =~= seq![state.config.zone]);
            }
            v
        },
    };
    Ok(Filters { filters })
}

/// Builds the record-listing call for the managed zone: the whole zone,
/// recursively. Fails fast while not ready; the backend is never called
/// before readiness.
pub fn get_records(state: &AppState) -> (r: Result<ApiRequest, AppError>)
    ensures
        r is Ok <==> state.is_ready,
        !state.is_ready ==> r == Err::<ApiRequest, AppError>(AppError::NotReady),
        state.is_ready ==> (r matches Ok(req) && req.url@ == state.client.base_url@
            + "/api/zones/records/get"@ && req.body@ == form_encoded_pairs(
            authenticated_pairs(
                state.client.token@,
                get_records_pairs(
                    GetRecordsPayload {
                        domain: state.config.zone,
                        zone: None,
                        list_zone: Some(true),
                    },
                ),
            ),
        )),
{
    match state.ensure_ready() {
        Err(e) => return Err(e),
        Ok(()) => {},
    }
    let payload = GetRecordsPayload {
        domain: state.config.zone.clone(),
        zone: None,
        list_zone: Some(true),
    };
    Ok(state.client.get_records(payload))
}

/// The listed records whose type the adapter models, in listing order.
pub open spec fn kept_records(rs: Seq<RecordInfo>) -> Seq<RecordInfo>
    decreases rs.len(),
{
    if rs.len() == 0 {
        Seq::empty()
    } else {
        kept_records(rs.drop_last()) + (if rs.last().data is Other {
            Seq::empty()
        } else {
            seq![rs.last()]
        })
    }
}

/// The endpoint a listed backend record maps to: its name, its type, its
/// one value, and its TTL, with all optional metadata empty.
pub open spec fn endpoint_matches_record(ri: RecordInfo, ep: Endpoint) -> bool {
    &&& ep.dns_name == ri.name
    &&& ep.record_type@ == endpoint_record_type(ri.data)
    &&& ep.targets@ == seq![endpoint_target(ri.data)]
    &&& ep.record_ttl == Some(ri.ttl)
    &&& ep.set_identifier@ == Seq::<char>::empty()
    &&& ep.labels@ == Seq::<(String, String)>::empty()
    &&& ep.provider_specific@ == Seq::<ProviderSpecificProperty>::empty()
}

/// Copies one record's typed data value for value.
fn clone_record_data(d: &RecordData) -> (r: RecordData)
    ensures
        r == *d,
{
    match d {
        RecordData::A(a) => RecordData::A(RecordAData { ip_address: a.ip_address.clone() }),
        RecordData::AAAA(a) => RecordData::AAAA(RecordAAAAData { ip_address: a.ip_address.clone() }),
        RecordData::CNAME(c) => RecordData::CNAME(RecordCNAMEData { cname: c.cname.clone() }),
        RecordData::TXT(t) => RecordData::TXT(RecordTXTData { text: t.text.clone() }),
        RecordData::Other { record_type, data } => RecordData::Other {
            record_type: record_type.clone(),
            data: data.clone(),
        },
    }
}

/// Maps a backend listing to endpoints, one per record, in listing
/// order, dropping records whose type the adapter does not model.
pub fn records_to_endpoints(records: &Vec<RecordInfo>) -> (r: Vec<Endpoint>)
    ensures
        r@.len() == kept_records(records@).len(),
        forall|k: int|
            0 <= k < r@.len() ==> endpoint_matches_record(
                kept_records(records@)[k],
                #[trigger] r@[k],
            ),
{
    let mut out: Vec<Endpoint> = Vec::new();
    assert(kept_records(records@.take(0)) =~= Seq::<RecordInfo>::empty());
    for i in 0..records.len()
        invariant
            out@.len() == kept_records(records@.take(i as int)).len(),
            forall|k: int|
                0 <= k < out@.len() ==> endpoint_matches_record(
                    kept_records(records@.take(i as int))[k],
                    #[trigger] out@[k],
                ),
    {
        let ri = &records[i];
        let rec = RecordInfo {
            disabled: ri.disabled,
            name: ri.name.clone(),
            ttl: ri.ttl,
            data: clone_record_data(&ri.data),
        };
        assert(rec == records@[i as int]);
        proof {
            assert(records@.take(i + 1).drop_last() =~= records@.take(i as int));
            assert(records@.take(i + 1).last() == records@[i as int]);
        }
        match to_endpoint(rec) {
            Some(ep) => {
                out.push(ep);
                proof {
                    assert(kept_records(records@.take(i + 1)) =~= kept_records(
                        records@.take(i as int),
                    ).push(records@[i as int]));
                }
            },
            None => {
                proof {
                    assert(kept_records(records@.take(i + 1)) =~= kept_records(
                        records@.take(i as int),
                    ));
                }
            },
        }
    }
    proof {
        assert(records@.take(records@.len() as int) =~= records@);
    }
    out
}

/// The pass-through adjustment: no business rule is applied, the
/// endpoints come back unchanged. Fails fast while not ready.
pub fn adjust_endpoints(state: &AppState, endpoints: Vec<Endpoint>) -> (r: Result<
    Vec<Endpoint>,
    AppError,
>)
    ensures
        r is Ok <==> state.is_ready,
        !state.is_ready ==> r == Err::<Vec<Endpoint>, AppError>(AppError::NotReady),
        state.is_ready ==> r == Ok::<Vec<Endpoint>, AppError>(endpoints),
{
    match state.ensure_ready() {
        Err(e) => return Err(e),
        Ok(()) => {},
    }
    Ok(endpoints)
}

/// Decomposes a change batch into its backend-call plan: deletions
/// before additions, unsupported targets skipped with a warning, and an
/// empty batch planning no call. Fails fast while not ready; nothing is
/// planned, so nothing is sent, before readiness.
pub fn apply_record(state: &AppState, changes: &Changes) -> (r: Result<ChangePlan, AppError>)
    ensures
        r is Ok <==> state.is_ready,
        !state.is_ready ==> r == Err::<ChangePlan, AppError>(AppError::NotReady),
        state.is_ready ==> (r matches Ok(plan) && plan.calls@ == plan_calls(*changes)
            && plan.skipped@ == plan_skips(*changes) && plan.noop == (deletions_of(
            *changes,
        ).len() == 0 && additions_of(*changes).len() == 0)),
{
    match state.ensure_ready() {
        Err(e) => return Err(e),
        Ok(()) => {},
    }
    Ok(plan_changes(changes))
}

} // verus!
