//! The backend session client: it prepares every backend call as a
//! ready-to-send POST request and classifies every response envelope.
//!
//! The transport itself lives outside the crate; what is verified here is
//! that each call goes to the right path with exactly the right
//! form-urlencoded body, the session token attached, and that the backend's
//! envelope status is sorted into the documented outcomes.

use crate::encoding::dec_chars;
use crate::encoding::form_encoded_pairs;
use crate::encoding::form_urlencode;
use crate::encoding::pairs_view;
use crate::encoding::str_eq;
use crate::encoding::u64_to_string;
use crate::technitium::models::AddRecordPayload;
use crate::technitium::models::CreateZonePayload;
use crate::technitium::models::DeleteRecordPayload;
use crate::technitium::models::GetRecordsPayload;
use crate::technitium::models::ListZonesPayload;
use crate::technitium::models::LoginPayload;
use crate::technitium::models::add_record_pairs;
use crate::technitium::models::create_zone_pairs;
use crate::technitium::models::delete_record_pairs;
use crate::technitium::models::get_records_pairs;
use crate::technitium::models::list_zones_pairs;
use crate::technitium::models::login_pairs;
use vstd::prelude::*;
use vstd::string::*;

verus! {

/// How a backend call fails: a transport error, a structured backend
/// error, or a rejected session token (kept apart from generic errors so
/// that callers can trigger a re-login).
#[derive(Debug, Clone, PartialEq, Eq)]
pub enum TechnitiumError {
    /// The HTTP request itself failed; carries the transport's message.
    RequestError(String),
    /// The backend answered with an error; carries its message.
    ApiError(String),
    /// The backend rejected the session token.
    InvalidToken,
}

/// The display text of a backend error.
pub open spec fn technitium_error_chars(e: TechnitiumError) -> Seq<char> {
    match e {
        TechnitiumError::RequestError(s) => "Request error: "@ + s@,
        TechnitiumError::ApiError(s) => "API error: "@ + s@,
        TechnitiumError::InvalidToken => "API error: Invalid token"@,
    }
}

impl TechnitiumError {
    /// Renders this error for logs and response bodies.
    pub fn message(&self) -> (r: String)
        ensures
            r@ == technitium_error_chars(*self),
    {
        match self {
            TechnitiumError::RequestError(s) => {
                String::from_str("Request error: ").concat(s.as_str())
            },
            TechnitiumError::ApiError(s) => String::from_str("API error: ").concat(s.as_str()),
            TechnitiumError::InvalidToken => String::from_str("API error: Invalid token"),
        }
    }
}

/// One prepared backend call: the full URL and the form-urlencoded body
/// of a POST request.
#[derive(Debug, Clone, PartialEq, Eq)]
pub struct ApiRequest {
    pub url: String,
    pub body: String,
}

/// One authenticated session with the backend: where it lives, the token
/// attached to every call, and the per-request timeout.
#[derive(Debug, Clone, PartialEq, Eq)]
pub struct TechnitiumClient {
    pub base_url: String,
    pub token: String,
    pub timeout_secs: u64,
}

/// The body pairs of an authenticated call: the session token first, then
/// the payload's own pairs.
pub open spec fn authenticated_pairs(token: Seq<char>, payload: Seq<(Seq<char>, Seq<char>)>) -> Seq<
    (Seq<char>, Seq<char>),
> {
    seq![("token"@, token)] + payload
}

impl TechnitiumClient {
    /// A session against `base_url` using `token`, with every request
    /// bounded by `timeout_secs`.
    pub fn new(base_url: String, token: String, timeout_secs: u64) -> (r: TechnitiumClient)
        ensures
            r.base_url == base_url,
            r.token == token,
            r.timeout_secs == timeout_secs,
    {
        TechnitiumClient { base_url, token, timeout_secs }
    }

    /// A POST request to `path` under the session's base URL.
    fn post_request(&self, path: &str, pairs: &Vec<(String, String)>) -> (r: ApiRequest)
        ensures
            r.url@ == self.base_url@ + path@,
            r.body@ == form_encoded_pairs(pairs_view(pairs@)),
    {
        let url = self.base_url.clone().concat(path);
        let body = form_urlencode(pairs);
        ApiRequest { url, body }
    }

    /// Prepends the session token to a payload's pairs.
    fn with_token(&self, payload_pairs: Vec<(String, String)>) -> (r: Vec<(String, String)>)
        ensures
            pairs_view(r@) == authenticated_pairs(self.token@, pairs_view(payload_pairs@)),
    {
        let mut pairs: Vec<(String, String)> = Vec::new();
        pairs.push((String::from_str("token"), self.token.clone()));
        let mut rest = payload_pairs;
        pairs.append(&mut rest);
        proof {
            assert(pairs_view(pairs@) =~= authenticated_pairs(
                self.token@,
                pairs_view(payload_pairs@),
            ));
        }
        pairs
    }

    /// The login call: credentials only, no token.
    pub fn login(&self, payload: LoginPayload) -> (r: ApiRequest)
        ensures
            r.url@ == self.base_url@ + "/api/user/login"@,
            r.body@ == form_encoded_pairs(login_pairs(payload)),
    {
        let pairs = payload.form_pairs();
        self.post_request("/api/user/login", &pairs)
    }

    /// The create-zone call, with the session token attached.
    pub fn create_zone(&self, payload: CreateZonePayload) -> (r: ApiRequest)
        ensures
            r.url@ == self.base_url@ + "/api/zones/create"@,
            r.body@ == form_encoded_pairs(
                authenticated_pairs(self.token@, create_zone_pairs(payload)),
            ),
    {
        let pairs = self.with_token(payload.form_pairs());
        self.post_request("/api/zones/create", &pairs)
    }

    /// The paged zone-listing call, with the session token attached.
    pub fn list_zones(&self, payload: ListZonesPayload) -> (r: ApiRequest)
        ensures
            r.url@ == self.base_url@ + "/api/zones/list"@,
            r.body@ == form_encoded_pairs(
                authenticated_pairs(self.token@, list_zones_pairs(payload)),
            ),
    {
        let pairs = self.with_token(payload.form_pairs());
        self.post_request("/api/zones/list", &pairs)
    }

    /// The add-record call, with the session token attached.
    pub fn add_record(&self, payload: AddRecordPayload) -> (r: ApiRequest)
        ensures
            r.url@ == self.base_url@ + "/api/zones/records/add"@,
            r.body@ == form_encoded_pairs(
                authenticated_pairs(self.token@, add_record_pairs(payload)),
            ),
    {
        let pairs = self.with_token(payload.form_pairs());
        self.post_request("/api/zones/records/add", &pairs)
    }

    /// The record-listing call, with the session token attached.
    pub fn get_records(&self, payload: GetRecordsPayload) -> (r: ApiRequest)
        ensures
            r.url@ == self.base_url@ + "/api/zones/records/get"@,
            r.body@ == form_encoded_pairs(
                authenticated_pairs(self.token@, get_records_pairs(payload)),
            ),
    {
        let pairs = self.with_token(payload.form_pairs());
        self.post_request("/api/zones/records/get", &pairs)
    }

    /// The delete-record call, with the session token attached.
    pub fn delete_record(&self, payload: DeleteRecordPayload) -> (r: ApiRequest)
        ensures
            r.url@ == self.base_url@ + "/api/zones/records/delete"@,
            r.body@ == form_encoded_pairs(
                authenticated_pairs(self.token@, delete_record_pairs(payload)),
            ),
    {
        let pairs = self.with_token(payload.form_pairs());
        self.post_request("/api/zones/records/delete", &pairs)
    }
}

/// Accepts an HTTP status code in the success range, or builds the error
/// surfaced for any other code.
pub fn check_http_status(code: u16) -> (r: Result<(), TechnitiumError>)
    ensures
        r is Ok <==> 200 <= code < 300,
        !(200 <= code < 300) ==> (r matches Err(TechnitiumError::ApiError(m)) && m@
            == "Server responded with non-successful status code "@ + dec_chars(code as nat)),
{
    if 200 <= code && code < 300 {
        Ok(())
    } else {
        let m = String::from_str("Server responded with non-successful status code ").concat(
            u64_to_string(code as u64).as_str(),
        );
        Err(TechnitiumError::ApiError(m))
    }
}

/// Sorts a backend response envelope into the four documented outcomes:
/// `ok` with data, a backend-supplied error, a rejected token, or an
/// unknown status carried verbatim for diagnostics. An `ok` envelope
/// without data is an error of its own.
pub fn classify_envelope<D>(status: String, error_message: Option<String>, data: Option<D>) -> (r:
    Result<D, TechnitiumError>)
    ensures
        r is Ok <==> status@ == "ok"@ && data is Some,
        status@ == "ok"@ && data is Some ==> (r matches Ok(d) && d == data->0),
        status@ == "ok"@ && data is None ==> (r matches Err(TechnitiumError::ApiError(m)) && m@
            == "Missing response data"@),
        status@ != "ok"@ && status@ == "error"@ ==> (r matches Err(TechnitiumError::ApiError(m))
            && m@ == (match error_message {
            Some(em) => em@,
            None => "Unknown server error"@,
        })),
        status@ != "ok"@ && status@ != "error"@ && status@ == "invalid-token"@ ==> r == Err::<
            D,
            TechnitiumError,
        >(TechnitiumError::InvalidToken),
        status@ != "ok"@ && status@ != "error"@ && status@ != "invalid-token"@ ==> (r matches Err(
            TechnitiumError::ApiError(m),
        ) && m@ == "Unexpected response status ("@ + status@ + ")"@),
{
    if str_eq(status.as_str(), "ok") {
        match data {
            Some(d) => Ok(d),
            None => Err(TechnitiumError::ApiError(String::from_str("Missing response data"))),
        }
    } else if str_eq(status.as_str(), "error") {
        let m = match error_message {
            Some(em) => em,
            None => String::from_str("Unknown server error"),
        };
        Err(TechnitiumError::ApiError(m))
    } else if str_eq(status.as_str(), "invalid-token") {
        Err(TechnitiumError::InvalidToken)
    } else {
        let m = String::from_str("Unexpected response status (").concat(status.as_str()).concat(
            ")",
        );
        Err(TechnitiumError::ApiError(m))
    }
}

} // verus!
