//! The backend's typed record and zone model, and the form-urlencoded
//! payloads of each backend API call.
//!
//! Every payload type renders itself to `key=value` pairs; the exact pair
//! sequence is given by a spec function beside it, so the request builders
//! in the client can state their bodies to the character.

use crate::encoding::dec_chars;
use crate::encoding::pairs_view;
use vstd::prelude::*;
use vstd::string::*;

verus! {

/// The value characters of a boolean in a form body.
pub open spec fn bool_chars(b: bool) -> Seq<char> {
    if b {
        "true"@
    } else {
        "false"@
    }
}

/// The pairs contributed by an optional string field.
pub open spec fn opt_str_pairs(key: Seq<char>, v: Option<String>) -> Seq<(Seq<char>, Seq<char>)> {
    match v {
        Some(s) => seq![(key, s@)],
        None => Seq::empty(),
    }
}

/// The pairs contributed by an optional numeric field, rendered in decimal.
pub open spec fn opt_u32_pairs(key: Seq<char>, v: Option<u32>) -> Seq<(Seq<char>, Seq<char>)> {
    match v {
        Some(n) => seq![(key, dec_chars(n as nat))],
        None => Seq::empty(),
    }
}

/// The pairs contributed by an optional boolean field.
pub open spec fn opt_bool_pairs(key: Seq<char>, v: Option<bool>) -> Seq<(Seq<char>, Seq<char>)> {
    match v {
        Some(b) => seq![(key, bool_chars(b))],
        None => Seq::empty(),
    }
}

/// Renders a boolean as `true` or `false`.
fn bool_to_string(b: bool) -> (r: String)
    ensures
        r@ == bool_chars(b),
{
    if b {
        String::from_str("true")
    } else {
        String::from_str("false")
    }
}

/// Credentials for the login call.
#[derive(Debug, Clone, PartialEq, Eq)]
pub struct LoginPayload {
    /// The username for the user account.
    pub username: String,
    /// The password for the user account.
    pub password: String,
}

/// The pair sequence of a login body: `user`, then `pass`.
pub open spec fn login_pairs(p: LoginPayload) -> Seq<(Seq<char>, Seq<char>)> {
    seq![("user"@, p.username@), ("pass"@, p.password@)]
}

impl LoginPayload {
    /// The `key=value` pairs of this payload, in wire order.
    pub fn form_pairs(&self) -> (r: Vec<(String, String)>)
        ensures
            pairs_view(r@) == login_pairs(*self),
    {
        let mut out: Vec<(String, String)> = Vec::new();
        out.push((String::from_str("user"), self.username.clone()));
        out.push((String::from_str("pass"), self.password.clone()));
        proof {
            assert(pairs_view(out@) =~= login_pairs(*self));
        }
        out
    }
}

impl Default for LoginPayload {
    /// Empty credentials.
    fn default() -> (r: LoginPayload)
        ensures
            r.username@ == Seq::<char>::empty(),
            r.password@ == Seq::<char>::empty(),
    {
        LoginPayload { username: String::new(), password: String::new() }
    }
}

/// What the backend returns from a successful login.
#[derive(Debug, Clone, PartialEq, Eq)]
pub struct LoginResponse {
    pub display_name: String,
    pub username: String,
    pub token: String,
}

/// Parameters of the create-zone call.
#[derive(Debug, Clone, PartialEq, Eq)]
pub struct CreateZonePayload {
    pub zone: String,
    pub zone_type: ZoneType,
    pub protocol: Option<Protocol>,
    pub forwarder: Option<String>,
    pub dnssec_validation: Option<bool>,
}

/// The pair sequence of a create-zone body: `zone` and `type`, then the
/// optional protocol, forwarder and DNSSEC-validation fields.
pub open spec fn create_zone_pairs(p: CreateZonePayload) -> Seq<(Seq<char>, Seq<char>)> {
    seq![("zone"@, p.zone@), ("type"@, zone_type_chars(p.zone_type))] + (match p.protocol {
        Some(pr) => seq![("protocol"@, protocol_chars(pr))],
        None => Seq::empty(),
    }) + opt_str_pairs("forwarder"@, p.forwarder) + opt_bool_pairs(
        "dnssecValidation"@,
        p.dnssec_validation,
    )
}

impl CreateZonePayload {
    /// The `key=value` pairs of this payload, in wire order.
    pub fn form_pairs(&self) -> (r: Vec<(String, String)>)
        ensures
            pairs_view(r@) == create_zone_pairs(*self),
    {
        let mut out: Vec<(String, String)> = Vec::new();
        out.push((String::from_str("zone"), self.zone.clone()));
        out.push((String::from_str("type"), self.zone_type.name()));
        match &self.protocol {
            Some(pr) => {
                out.push((String::from_str("protocol"), pr.name()));
            },
            None => {},
        }
        match &self.forwarder {
            Some(f) => {
                out.push((String::from_str("forwarder"), f.clone()));
            },
            None => {},
        }
        match &self.dnssec_validation {
            Some(d) => {
                out.push((String::from_str("dnssecValidation"), bool_to_string(*d)));
            },
            None => {},
        }
        proof {
            assert(pairs_view(out@) =~= create_zone_pairs(*self));
        }
        out
    }
}

impl Default for CreateZonePayload {
    /// An empty primary zone with every optional field absent.
    fn default() -> (r: CreateZonePayload)
        ensures
            r.zone@ == Seq::<char>::empty(),
            r.zone_type == ZoneType::Primary,
            r.protocol is None,
            r.forwarder is None,
            r.dnssec_validation is None,
    {
        CreateZonePayload {
            zone: String::new(),
            zone_type: ZoneType::Primary,
            protocol: None,
            forwarder: None,
            dnssec_validation: None,
        }
    }
}

/// What the backend returns from a successful create-zone call.
#[derive(Debug, Clone, PartialEq, Eq)]
pub struct CreateZoneResponse {
    pub domain: String,
}

/// Parameters of the paged zone-listing call.
#[derive(Debug, Clone, PartialEq, Eq)]
pub struct ListZonesPayload {
    pub zone: String,
    pub page_number: Option<u32>,
    pub zones_per_page: Option<u32>,
}

/// The pair sequence of a zone-listing body.
pub open spec fn list_zones_pairs(p: ListZonesPayload) -> Seq<(Seq<char>, Seq<char>)> {
    seq![("zone"@, p.zone@)] + opt_u32_pairs("pageNumber"@, p.page_number) + opt_u32_pairs(
        "zonesPerPage"@,
        p.zones_per_page,
    )
}

impl ListZonesPayload {
    /// The `key=value` pairs of this payload, in wire order.
    pub fn form_pairs(&self) -> (r: Vec<(String, String)>)
        ensures
            pairs_view(r@) == list_zones_pairs(*self),
    {
        let mut out: Vec<(String, String)> = Vec::new();
        out.push((String::from_str("zone"), self.zone.clone()));
        match &self.page_number {
            Some(n) => {
                out.push((String::from_str("pageNumber"), crate::encoding::u32_to_string(*n)));
            },
            None => {},
        }
        match &self.zones_per_page {
            Some(n) => {
                out.push((String::from_str("zonesPerPage"), crate::encoding::u32_to_string(*n)));
            },
            None => {},
        }
        proof {
            assert(pairs_view(out@) =~= list_zones_pairs(*self));
        }
        out
    }
}

impl Default for ListZonesPayload {
    /// An unnamed zone with no paging parameters.
    fn default() -> (r: ListZonesPayload)
        ensures
            r.zone@ == Seq::<char>::empty(),
            r.page_number is None,
            r.zones_per_page is None,
    {
        ListZonesPayload { zone: String::new(), page_number: None, zones_per_page: None }
    }
}

/// One page of the backend's zone listing.
#[derive(Debug, Clone, PartialEq, Eq)]
pub struct ListZonesResponse {
    pub page_number: u32,
    pub total_pages: u32,
    pub total_zones: u32,
    pub zones: Vec<ZoneInfo>,
}

/// Parameters of the add-record call.
#[derive(Debug, Clone, PartialEq, Eq)]
pub struct AddRecordPayload {
    pub domain: String,
    pub data: AddRecordPayloadRecordData,
    pub zone: Option<String>,
    pub ttl: Option<u32>,
    pub overwrite: Option<bool>,
    pub comments: Option<String>,
    pub expiry_ttl: Option<u32>,
}

/// The pair sequence of an add-record body: `domain`, the typed record
/// data, then the optional fields in declaration order.
pub open spec fn add_record_pairs(p: AddRecordPayload) -> Seq<(Seq<char>, Seq<char>)> {
    seq![("domain"@, p.domain@)] + add_record_data_pairs(p.data) + opt_str_pairs("zone"@, p.zone)
        + opt_u32_pairs("ttl"@, p.ttl) + opt_bool_pairs("overwrite"@, p.overwrite) + opt_str_pairs(
        "comments"@,
        p.comments,
    ) + opt_u32_pairs("expiryTtl"@, p.expiry_ttl)
}

impl AddRecordPayload {
    /// The `key=value` pairs of this payload, in wire order.
    pub fn form_pairs(&self) -> (r: Vec<(String, String)>)
        ensures
            pairs_view(r@) == add_record_pairs(*self),
    {
        let ghost head = seq![("domain"@, self.domain@)] + add_record_data_pairs(self.data);
        let mut out: Vec<(String, String)> = Vec::new();
        out.push((String::from_str("domain"), self.domain.clone()));
        self.data.push_pairs(&mut out);
        proof {
            assert(pairs_view(out@) =~= head);
        }
        match &self.zone {
            Some(z) => {
                out.push((String::from_str("zone"), z.clone()));
            },
            None => {},
        }
        let ghost with_zone = head + opt_str_pairs("zone"@, self.zone);
        proof {
            assert(pairs_view(out@) =~= with_zone);
        }
        match &self.ttl {
            Some(n) => {
                out.push((String::from_str("ttl"), crate::encoding::u32_to_string(*n)));
            },
            None => {},
        }
        let ghost with_ttl = with_zone + opt_u32_pairs("ttl"@, self.ttl);
        proof {
            assert(pairs_view(out@) =~= with_ttl);
        }
        match &self.overwrite {
            Some(b) => {
                out.push((String::from_str("overwrite"), bool_to_string(*b)));
            },
            None => {},
        }
        let ghost with_overwrite = with_ttl + opt_bool_pairs("overwrite"@, self.overwrite);
        proof {
            assert(pairs_view(out@) =~= with_overwrite);
        }
        match &self.comments {
            Some(c) => {
                out.push((String::from_str("comments"), c.clone()));
            },
            None => {},
        }
        let ghost with_comments = with_overwrite + opt_str_pairs("comments"@, self.comments);
        proof {
            assert(pairs_view(out@) =~= with_comments);
        }
        match &self.expiry_ttl {
            Some(n) => {
                out.push((String::from_str("expiryTtl"), crate::encoding::u32_to_string(*n)));
            },
            None => {},
        }
        proof {
            assert(pairs_view(out@) =~= with_comments + opt_u32_pairs("expiryTtl"@, self.expiry_ttl));
            assert(pairs_view(out@) =~= add_record_pairs(*self));
        }
        out
    }
}

impl Default for AddRecordPayload {
    /// An empty record addition with every optional field absent.
    fn default() -> (r: AddRecordPayload)
        ensures
            r.domain@ == Seq::<char>::empty(),
            r.data matches AddRecordPayloadRecordData::Other { record_type, data }
                && record_type@ == Seq::<char>::empty() && data@ == Seq::<char>::empty(),
            r.zone is None,
            r.ttl is None,
            r.overwrite is None,
            r.comments is None,
            r.expiry_ttl is None,
    {
        AddRecordPayload {
            domain: String::new(),
            data: AddRecordPayloadRecordData::default(),
            zone: None,
            ttl: None,
            overwrite: None,
            comments: None,
            expiry_ttl: None,
        }
    }
}

/// The typed record data of an add-record call.
#[derive(Debug, Clone, PartialEq, Eq)]
pub enum AddRecordPayloadRecordData {
    A(RecordAData),
    AAAA(RecordAAAAData),
    CNAME(RecordCNAMEData),
    TXT(RecordTXTData),
    /// A record type the adapter does not model; `data` carries the
    /// opaque payload as raw JSON text.
    Other { record_type: String, data: String },
}

/// The pairs of the typed record data in an add-record body: the `type`
/// tag, then the one value field of that type.
pub open spec fn add_record_data_pairs(d: AddRecordPayloadRecordData) -> Seq<
    (Seq<char>, Seq<char>),
> {
    match d {
        AddRecordPayloadRecordData::A(a) => seq![("type"@, "A"@), ("ipAddress"@, a.ip_address@)],
        AddRecordPayloadRecordData::AAAA(a) => seq![
            ("type"@, "AAAA"@),
            ("ipAddress"@, a.ip_address@),
        ],
        AddRecordPayloadRecordData::CNAME(c) => seq![("type"@, "CNAME"@), ("cname"@, c.cname@)],
        AddRecordPayloadRecordData::TXT(t) => seq![("type"@, "TXT"@), ("text"@, t.text@)],
        AddRecordPayloadRecordData::Other { record_type, data } => seq![
            ("type"@, record_type@),
            ("rdata"@, data@),
        ],
    }
}

impl AddRecordPayloadRecordData {
    /// Appends this record data's pairs to a pair list.
    fn push_pairs(&self, out: &mut Vec<(String, String)>)
        ensures
            pairs_view(final(out)@) == pairs_view(old(out)@) + add_record_data_pairs(*self),
    {
        match self {
            AddRecordPayloadRecordData::A(a) => {
                out.push((String::from_str("type"), String::from_str("A")));
                out.push((String::from_str("ipAddress"), a.ip_address.clone()));
            },
            AddRecordPayloadRecordData::AAAA(a) => {
                out.push((String::from_str("type"), String::from_str("AAAA")));
                out.push((String::from_str("ipAddress"), a.ip_address.clone()));
            },
            AddRecordPayloadRecordData::CNAME(c) => {
                out.push((String::from_str("type"), String::from_str("CNAME")));
                out.push((String::from_str("cname"), c.cname.clone()));
            },
            AddRecordPayloadRecordData::TXT(t) => {
                out.push((String::from_str("type"), String::from_str("TXT")));
                out.push((String::from_str("text"), t.text.clone()));
            },
            AddRecordPayloadRecordData::Other { record_type, data } => {
                out.push((String::from_str("type"), record_type.clone()));
                out.push((String::from_str("rdata"), data.clone()));
            },
        }
        proof {
            assert(pairs_view(out@) =~= pairs_view(old(out)@) + add_record_data_pairs(*self));
        }
    }
}

impl Default for AddRecordPayloadRecordData {
    /// An unnamed record type with an empty opaque payload.
    fn default() -> (r: AddRecordPayloadRecordData)
        ensures
            r matches AddRecordPayloadRecordData::Other { record_type, data } && record_type@
                == Seq::<char>::empty() && data@ == Seq::<char>::empty(),
    {
        AddRecordPayloadRecordData::Other { record_type: String::new(), data: String::new() }
    }
}

/// What the backend returns from a successful add-record call.
#[derive(Debug, Clone, PartialEq, Eq)]
pub struct AddRecordResponse {
    pub zone: ZoneInfo,
    pub added_record: RecordInfo,
}

/// Parameters of the record-listing call.
#[derive(Debug, Clone, PartialEq, Eq)]
pub struct GetRecordsPayload {
    pub domain: String,
    pub zone: Option<String>,
    pub list_zone: Option<bool>,
}

/// The pair sequence of a record-listing body.
pub open spec fn get_records_pairs(p: GetRecordsPayload) -> Seq<(Seq<char>, Seq<char>)> {
    seq![("domain"@, p.domain@)] + opt_str_pairs("zone"@, p.zone) + opt_bool_pairs(
        "listZone"@,
        p.list_zone,
    )
}

impl GetRecordsPayload {
    /// The `key=value` pairs of this payload, in wire order.
    pub fn form_pairs(&self) -> (r: Vec<(String, String)>)
        ensures
            pairs_view(r@) == get_records_pairs(*self),
    {
        let mut out: Vec<(String, String)> = Vec::new();
        out.push((String::from_str("domain"), self.domain.clone()));
        match &self.zone {
            Some(z) => {
                out.push((String::from_str("zone"), z.clone()));
            },
            None => {},
        }
        match &self.list_zone {
            Some(b) => {
                out.push((String::from_str("listZone"), bool_to_string(*b)));
            },
            None => {},
        }
        proof {
            assert(pairs_view(out@) =~= get_records_pairs(*self));
        }
        out
    }
}

impl Default for GetRecordsPayload {
    /// An unnamed domain with every optional field absent.
    fn default() -> (r: GetRecordsPayload)
        ensures
            r.domain@ == Seq::<char>::empty(),
            r.zone is None,
            r.list_zone is None,
    {
        GetRecordsPayload { domain: String::new(), zone: None, list_zone: None }
    }
}

/// What the backend returns from a record-listing call.
#[derive(Debug, Clone, PartialEq, Eq)]
pub struct GetRecordsResponse {
    pub zone: ZoneInfo,
    pub records: Vec<RecordInfo>,
}

/// Parameters of the delete-record call.
#[derive(Debug, Clone, PartialEq, Eq)]
pub struct DeleteRecordPayload {
    pub domain: String,
    pub data: DeleteRecordPayloadRecordData,
    pub zone: Option<String>,
}

/// The pair sequence of a delete-record body.
pub open spec fn delete_record_pairs(p: DeleteRecordPayload) -> Seq<(Seq<char>, Seq<char>)> {
    seq![("domain"@, p.domain@)] + delete_record_data_pairs(p.data) + opt_str_pairs(
        "zone"@,
        p.zone,
    )
}

impl DeleteRecordPayload {
    /// The `key=value` pairs of this payload, in wire order.
    pub fn form_pairs(&self) -> (r: Vec<(String, String)>)
        ensures
            pairs_view(r@) == delete_record_pairs(*self),
    {
        let ghost head = seq![("domain"@, self.domain@)] + delete_record_data_pairs(self.data);
        let mut out: Vec<(String, String)> = Vec::new();
        out.push((String::from_str("domain"), self.domain.clone()));
        self.data.push_pairs(&mut out);
        proof {
            assert(pairs_view(out@) =~= head);
        }
        match &self.zone {
            Some(z) => {
                out.push((String::from_str("zone"), z.clone()));
            },
            None => {},
        }
        proof {
            assert(pairs_view(out@) =~= head + opt_str_pairs("zone"@, self.zone));
            assert(pairs_view(out@) =~= delete_record_pairs(*self));
        }
        out
    }
}

impl Default for DeleteRecordPayload {
    /// An empty record deletion with every optional field absent.
    fn default() -> (r: DeleteRecordPayload)
        ensures
            r.domain@ == Seq::<char>::empty(),
            r.data matches DeleteRecordPayloadRecordData::Other { record_type, data }
                && record_type@ == Seq::<char>::empty() && data@ == Seq::<char>::empty(),
            r.zone is None,
    {
        DeleteRecordPayload {
            domain: String::new(),
            data: DeleteRecordPayloadRecordData::default(),
            zone: None,
        }
    }
}

/// The typed record data of a delete-record call.
#[derive(Debug, Clone, PartialEq, Eq)]
pub enum DeleteRecordPayloadRecordData {
    A(RecordAData),
    AAAA(RecordAAAAData),
    CNAME(RecordCNAMEData),
    TXT(RecordTXTData),
    /// A record type the adapter does not model; `data` carries the
    /// opaque payload as raw JSON text.
    Other { record_type: String, data: String },
}

/// The pairs of the typed record data in a delete-record body.
pub open spec fn delete_record_data_pairs(d: DeleteRecordPayloadRecordData) -> Seq<
    (Seq<char>, Seq<char>),
> {
    match d {
        DeleteRecordPayloadRecordData::A(a) => seq![
            ("type"@, "A"@),
            ("ipAddress"@, a.ip_address@),
        ],
        DeleteRecordPayloadRecordData::AAAA(a) => seq![
            ("type"@, "AAAA"@),
            ("ipAddress"@, a.ip_address@),
        ],
        DeleteRecordPayloadRecordData::CNAME(c) => seq![("type"@, "CNAME"@), ("cname"@, c.cname@)],
        DeleteRecordPayloadRecordData::TXT(t) => seq![("type"@, "TXT"@), ("text"@, t.text@)],
        DeleteRecordPayloadRecordData::Other { record_type, data } => seq![
            ("type"@, record_type@),
            ("rdata"@, data@),
        ],
    }
}

impl DeleteRecordPayloadRecordData {
    /// Appends this record data's pairs to a pair list.
    fn push_pairs(&self, out: &mut Vec<(String, String)>)
        ensures
            pairs_view(final(out)@) == pairs_view(old(out)@) + delete_record_data_pairs(*self),
    {
        match self {
            DeleteRecordPayloadRecordData::A(a) => {
                out.push((String::from_str("type"), String::from_str("A")));
                out.push((String::from_str("ipAddress"), a.ip_address.clone()));
            },
            DeleteRecordPayloadRecordData::AAAA(a) => {
                out.push((String::from_str("type"), String::from_str("AAAA")));
                out.push((String::from_str("ipAddress"), a.ip_address.clone()));
            },
            DeleteRecordPayloadRecordData::CNAME(c) => {
                out.push((String::from_str("type"), String::from_str("CNAME")));
                out.push((String::from_str("cname"), c.cname.clone()));
            },
            DeleteRecordPayloadRecordData::TXT(t) => {
                out.push((String::from_str("type"), String::from_str("TXT")));
                out.push((String::from_str("text"), t.text.clone()));
            },
            DeleteRecordPayloadRecordData::Other { record_type, data } => {
                out.push((String::from_str("type"), record_type.clone()));
                out.push((String::from_str("rdata"), data.clone()));
            },
        }
        proof {
            assert(pairs_view(out@) =~= pairs_view(old(out)@) + delete_record_data_pairs(*self));
        }
    }
}

impl Default for DeleteRecordPayloadRecordData {
    /// An unnamed record type with an empty opaque payload.
    fn default() -> (r: DeleteRecordPayloadRecordData)
        ensures
            r matches DeleteRecordPayloadRecordData::Other { record_type, data } && record_type@
                == Seq::<char>::empty() && data@ == Seq::<char>::empty(),
    {
        DeleteRecordPayloadRecordData::Other { record_type: String::new(), data: String::new() }
    }
}

/// What the backend returns from a successful delete-record call.
#[derive(Debug, Clone, PartialEq, Eq)]
pub struct DeleteRecordResponse {}

/// One zone as the backend lists it.
#[derive(Debug, Clone, PartialEq, Eq)]
pub struct ZoneInfo {
    pub name: String,
    pub zone_type: ZoneType,
    pub internal: Option<bool>,
    pub disabled: bool,
}

/// One physical record as the backend lists it.
#[derive(Debug, Clone, PartialEq, Eq)]
pub struct RecordInfo {
    pub disabled: bool,
    pub name: String,
    pub ttl: u32,
    pub data: RecordData,
}

/// The typed data of one listed record, with an opaque fallback for
/// record types the adapter does not model.
#[derive(Debug, Clone, PartialEq, Eq)]
pub enum RecordData {
    A(RecordAData),
    AAAA(RecordAAAAData),
    CNAME(RecordCNAMEData),
    TXT(RecordTXTData),
    /// A record type the adapter does not model; `data` carries the
    /// opaque payload as raw JSON text.
    Other { record_type: String, data: String },
}

impl Default for RecordData {
    /// An unnamed record type with an empty opaque payload.
    fn default() -> (r: RecordData)
        ensures
            r matches RecordData::Other { record_type, data } && record_type@
                == Seq::<char>::empty() && data@ == Seq::<char>::empty(),
    {
        RecordData::Other { record_type: String::new(), data: String::new() }
    }
}

/// The data of an address record.
#[derive(Debug, Clone, PartialEq, Eq)]
pub struct RecordAData {
    pub ip_address: String,
}

/// The data of an IPv6 address record.
#[derive(Debug, Clone, PartialEq, Eq)]
pub struct RecordAAAAData {
    pub ip_address: String,
}

/// The data of an alias record.
#[derive(Debug, Clone, PartialEq, Eq)]
pub struct RecordCNAMEData {
    pub cname: String,
}

/// The data of a text record.
#[derive(Debug, Clone, PartialEq, Eq)]
pub struct RecordTXTData {
    pub text: String,
}

/// An address-record update: the current data plus the new address.
#[derive(Debug, Clone, PartialEq, Eq)]
pub struct RecordAUpdate {
    pub current: RecordAData,
    pub ip_address: String,
}

/// An IPv6-address-record update: the current data plus the new address.
#[derive(Debug, Clone, PartialEq, Eq)]
pub struct RecordAAAAUpdate {
    pub current: RecordAAAAData,
    pub ip_address: String,
}

/// An alias-record update: the current data plus the new target.
#[derive(Debug, Clone, PartialEq, Eq)]
pub struct RecordCNAMEUpdate {
    pub current: RecordCNAMEData,
    pub cname: String,
}

/// A text-record update: the current data plus the new text.
#[derive(Debug, Clone, PartialEq, Eq)]
pub struct RecordTXTUpdate {
    pub current: RecordTXTData,
    pub text: String,
}

/// The kinds of zone the backend can host.
#[derive(Debug, Clone, Copy, PartialEq, Eq)]
pub enum ZoneType {
    Primary,
    Secondary,
    Stub,
    Forwarder,
    SecondaryForwarder,
    Catalog,
    SecondaryCatalog,
}

/// The wire name of a zone type.
pub open spec fn zone_type_chars(t: ZoneType) -> Seq<char> {
    match t {
        ZoneType::Primary => "Primary"@,
        ZoneType::Secondary => "Secondary"@,
        ZoneType::Stub => "Stub"@,
        ZoneType::Forwarder => "Forwarder"@,
        ZoneType::SecondaryForwarder => "SecondaryForwarder"@,
        ZoneType::Catalog => "Catalog"@,
        ZoneType::SecondaryCatalog => "SecondaryCatalog"@,
    }
}

impl ZoneType {
    /// The wire name of this zone type.
    pub fn name(&self) -> (r: String)
        ensures
            r@ == zone_type_chars(*self),
    {
        match self {
            ZoneType::Primary => String::from_str("Primary"),
            ZoneType::Secondary => String::from_str("Secondary"),
            ZoneType::Stub => String::from_str("Stub"),
            ZoneType::Forwarder => String::from_str("Forwarder"),
            ZoneType::SecondaryForwarder => String::from_str("SecondaryForwarder"),
            ZoneType::Catalog => String::from_str("Catalog"),
            ZoneType::SecondaryCatalog => String::from_str("SecondaryCatalog"),
        }
    }
}

impl Default for ZoneType {
    /// The backend's default zone type.
    fn default() -> (r: ZoneType)
        ensures
            r == ZoneType::Primary,
    {
        ZoneType::Primary
    }
}

/// The transport protocols a forwarder zone can use.
#[derive(Debug, Clone, Copy, PartialEq, Eq)]
pub enum Protocol {
    Udp,
    Tcp,
    Tls,
    Https,
    Quic,
}

/// The wire name of a forwarder protocol.
pub open spec fn protocol_chars(p: Protocol) -> Seq<char> {
    match p {
        Protocol::Udp => "Udp"@,
        Protocol::Tcp => "Tcp"@,
        Protocol::Tls => "Tls"@,
        Protocol::Https => "Https"@,
        Protocol::Quic => "Quic"@,
    }
}

impl Protocol {
    /// The wire name of this protocol.
    pub fn name(&self) -> (r: String)
        ensures
            r@ == protocol_chars(*self),
    {
        match self {
            Protocol::Udp => String::from_str("Udp"),
            Protocol::Tcp => String::from_str("Tcp"),
            Protocol::Tls => String::from_str("Tls"),
            Protocol::Https => String::from_str("Https"),
            Protocol::Quic => String::from_str("Quic"),
        }
    }
}

impl Default for Protocol {
    /// The backend's default forwarder protocol.
    fn default() -> (r: Protocol)
        ensures
            r == Protocol::Udp,
    {
        Protocol::Udp
    }
}

/// The add-record data matching a listed record, variant for variant.
pub open spec fn add_data_from(d: RecordData) -> AddRecordPayloadRecordData {
    match d {
        RecordData::A(a) => AddRecordPayloadRecordData::A(a),
        RecordData::AAAA(a) => AddRecordPayloadRecordData::AAAA(a),
        RecordData::CNAME(c) => AddRecordPayloadRecordData::CNAME(c),
        RecordData::TXT(t) => AddRecordPayloadRecordData::TXT(t),
        RecordData::Other { record_type, data } => AddRecordPayloadRecordData::Other {
            record_type,
            data,
        },
    }
}

/// The delete-record data matching a listed record, variant for variant.
pub open spec fn delete_data_from(d: RecordData) -> DeleteRecordPayloadRecordData {
    match d {
        RecordData::A(a) => DeleteRecordPayloadRecordData::A(a),
        RecordData::AAAA(a) => DeleteRecordPayloadRecordData::AAAA(a),
        RecordData::CNAME(c) => DeleteRecordPayloadRecordData::CNAME(c),
        RecordData::TXT(t) => DeleteRecordPayloadRecordData::TXT(t),
        RecordData::Other { record_type, data } => DeleteRecordPayloadRecordData::Other {
            record_type,
            data,
        },
    }
}

impl From<RecordData> for AddRecordPayloadRecordData {
    fn from(d: RecordData) -> (r: AddRecordPayloadRecordData) {
        match d {
            RecordData::A(a) => AddRecordPayloadRecordData::A(a),
            RecordData::AAAA(a) => AddRecordPayloadRecordData::AAAA(a),
            RecordData::CNAME(c) => AddRecordPayloadRecordData::CNAME(c),
            RecordData::TXT(t) => AddRecordPayloadRecordData::TXT(t),
            RecordData::Other { record_type, data } => AddRecordPayloadRecordData::Other {
                record_type,
                data,
            },
        }
    }
}

impl vstd::std_specs::convert::FromSpecImpl<RecordData> for AddRecordPayloadRecordData {
    open spec fn obeys_from_spec() -> bool {
        true
    }

    open spec fn from_spec(d: RecordData) -> AddRecordPayloadRecordData {
        add_data_from(d)
    }
}

impl From<RecordData> for DeleteRecordPayloadRecordData {
    fn from(d: RecordData) -> (r: DeleteRecordPayloadRecordData) {
        match d {
            RecordData::A(a) => DeleteRecordPayloadRecordData::A(a),
            RecordData::AAAA(a) => DeleteRecordPayloadRecordData::AAAA(a),
            RecordData::CNAME(c) => DeleteRecordPayloadRecordData::CNAME(c),
            RecordData::TXT(t) => DeleteRecordPayloadRecordData::TXT(t),
            RecordData::Other { record_type, data } => DeleteRecordPayloadRecordData::Other {
                record_type,
                data,
            },
        }
    }
}

impl vstd::std_specs::convert::FromSpecImpl<RecordData> for DeleteRecordPayloadRecordData {
    open spec fn obeys_from_spec() -> bool {
        true
    }

    open spec fn from_spec(d: RecordData) -> DeleteRecordPayloadRecordData {
        delete_data_from(d)
    }
}

impl From<RecordAData> for AddRecordPayloadRecordData {
    fn from(value: RecordAData) -> (r: AddRecordPayloadRecordData) {
        AddRecordPayloadRecordData::A(value)
    }
}

impl vstd::std_specs::convert::FromSpecImpl<RecordAData> for AddRecordPayloadRecordData {
    open spec fn obeys_from_spec() -> bool {
        true
    }

    open spec fn from_spec(value: RecordAData) -> AddRecordPayloadRecordData {
        AddRecordPayloadRecordData::A(value)
    }
}

impl From<RecordAAAAData> for AddRecordPayloadRecordData {
    fn from(value: RecordAAAAData) -> (r: AddRecordPayloadRecordData) {
        AddRecordPayloadRecordData::AAAA(value)
    }
}

impl vstd::std_specs::convert::FromSpecImpl<RecordAAAAData> for AddRecordPayloadRecordData {
    open spec fn obeys_from_spec() -> bool {
        true
    }

    open spec fn from_spec(value: RecordAAAAData) -> AddRecordPayloadRecordData {
        AddRecordPayloadRecordData::AAAA(value)
    }
}

impl From<RecordCNAMEData> for AddRecordPayloadRecordData {
    fn from(value: RecordCNAMEData) -> (r: AddRecordPayloadRecordData) {
        AddRecordPayloadRecordData::CNAME(value)
    }
}

impl vstd::std_specs::convert::FromSpecImpl<RecordCNAMEData> for AddRecordPayloadRecordData {
    open spec fn obeys_from_spec() -> bool {
        true
    }

    open spec fn from_spec(value: RecordCNAMEData) -> AddRecordPayloadRecordData {
        AddRecordPayloadRecordData::CNAME(value)
    }
}

impl From<RecordTXTData> for AddRecordPayloadRecordData {
    fn from(value: RecordTXTData) -> (r: AddRecordPayloadRecordData) {
        AddRecordPayloadRecordData::TXT(value)
    }
}

impl vstd::std_specs::convert::FromSpecImpl<RecordTXTData> for AddRecordPayloadRecordData {
    open spec fn obeys_from_spec() -> bool {
        true
    }

    open spec fn from_spec(value: RecordTXTData) -> AddRecordPayloadRecordData {
        AddRecordPayloadRecordData::TXT(value)
    }
}

impl From<RecordAData> for DeleteRecordPayloadRecordData {
    fn from(data: RecordAData) -> (r: DeleteRecordPayloadRecordData) {
        DeleteRecordPayloadRecordData::A(data)
    }
}

impl vstd::std_specs::convert::FromSpecImpl<RecordAData> for DeleteRecordPayloadRecordData {
    open spec fn obeys_from_spec() -> bool {
        true
    }

    open spec fn from_spec(data: RecordAData) -> DeleteRecordPayloadRecordData {
        DeleteRecordPayloadRecordData::A(data)
    }
}

impl From<RecordAAAAData> for DeleteRecordPayloadRecordData {
    fn from(data: RecordAAAAData) -> (r: DeleteRecordPayloadRecordData) {
        DeleteRecordPayloadRecordData::AAAA(data)
    }
}

impl vstd::std_specs::convert::FromSpecImpl<RecordAAAAData> for DeleteRecordPayloadRecordData {
    open spec fn obeys_from_spec() -> bool {
        true
    }

    open spec fn from_spec(data: RecordAAAAData) -> DeleteRecordPayloadRecordData {
        DeleteRecordPayloadRecordData::AAAA(data)
    }
}

impl From<RecordCNAMEData> for DeleteRecordPayloadRecordData {
    fn from(data: RecordCNAMEData) -> (r: DeleteRecordPayloadRecordData) {
        DeleteRecordPayloadRecordData::CNAME(data)
    }
}

impl vstd::std_specs::convert::FromSpecImpl<RecordCNAMEData> for DeleteRecordPayloadRecordData {
    open spec fn obeys_from_spec() -> bool {
        true
    }

    open spec fn from_spec(data: RecordCNAMEData) -> DeleteRecordPayloadRecordData {
        DeleteRecordPayloadRecordData::CNAME(data)
    }
}

impl From<RecordTXTData> for DeleteRecordPayloadRecordData {
    fn from(data: RecordTXTData) -> (r: DeleteRecordPayloadRecordData) {
        DeleteRecordPayloadRecordData::TXT(data)
    }
}

impl vstd::std_specs::convert::FromSpecImpl<RecordTXTData> for DeleteRecordPayloadRecordData {
    open spec fn obeys_from_spec() -> bool {
        true
    }

    open spec fn from_spec(data: RecordTXTData) -> DeleteRecordPayloadRecordData {
        DeleteRecordPayloadRecordData::TXT(data)
    }
}

impl From<RecordAData> for RecordAUpdate {
    fn from(data: RecordAData) -> (r: RecordAUpdate) {
        let ip_address = data.ip_address.clone();
        RecordAUpdate { current: data, ip_address }
    }
}

impl vstd::std_specs::convert::FromSpecImpl<RecordAData> for RecordAUpdate {
    open spec fn obeys_from_spec() -> bool {
        true
    }

    open spec fn from_spec(data: RecordAData) -> RecordAUpdate {
        RecordAUpdate { current: data, ip_address: data.ip_address }
    }
}

impl From<RecordAAAAData> for RecordAAAAUpdate {
    fn from(data: RecordAAAAData) -> (r: RecordAAAAUpdate) {
        let ip_address = data.ip_address.clone();
        RecordAAAAUpdate { current: data, ip_address }
    }
}

impl vstd::std_specs::convert::FromSpecImpl<RecordAAAAData> for RecordAAAAUpdate {
    open spec fn obeys_from_spec() -> bool {
        true
    }

    open spec fn from_spec(data: RecordAAAAData) -> RecordAAAAUpdate {
        RecordAAAAUpdate { current: data, ip_address: data.ip_address }
    }
}

impl From<RecordCNAMEData> for RecordCNAMEUpdate {
    fn from(data: RecordCNAMEData) -> (r: RecordCNAMEUpdate) {
        let cname = data.cname.clone();
        RecordCNAMEUpdate { current: data, cname }
    }
}

impl vstd::std_specs::convert::FromSpecImpl<RecordCNAMEData> for RecordCNAMEUpdate {
    open spec fn obeys_from_spec() -> bool {
        true
    }

    open spec fn from_spec(data: RecordCNAMEData) -> RecordCNAMEUpdate {
        RecordCNAMEUpdate { current: data, cname: data.cname }
    }
}

impl From<RecordTXTData> for RecordTXTUpdate {
    fn from(data: RecordTXTData) -> (r: RecordTXTUpdate) {
        let text = data.text.clone();
        RecordTXTUpdate { current: data, text }
    }
}

impl vstd::std_specs::convert::FromSpecImpl<RecordTXTData> for RecordTXTUpdate {
    open spec fn obeys_from_spec() -> bool {
        true
    }

    open spec fn from_spec(data: RecordTXTData) -> RecordTXTUpdate {
        RecordTXTUpdate { current: data, text: data.text }
    }
}

} // verus!
