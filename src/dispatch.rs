//! Routing a call to its upstream request, and classifying what comes back.

use vstd::prelude::*;
use vstd::string::*;

use crate::bundle::RequestBundle;
use crate::failure::Failure;
use crate::query::{admissible, build_query, project, rejection, UpstreamQuery};
use crate::registry::{lookup, registered, Base};

verus! {

/// `serde_json::Value`: an upstream payload, carried through unopened.
#[verifier::external_type_specification]
#[verifier::external_body]
pub struct ExJsonValue(serde_json::Value);

/// `serde_json::Error`: why a body did not parse, carried to its message.
#[verifier::external_type_specification]
#[verifier::external_body]
pub struct ExJsonError(serde_json::Error);

/// Whether serde_json reads `text` as one JSON value.
pub uninterp spec fn json_accepts(text: Seq<char>) -> bool;

/// Relies on `serde_json::from_str::<Value>`: it reads the whole text as one
/// JSON value and fails on anything else.
#[verifier::external_body]
fn parse_json(text: &str) -> (r: Result<serde_json::Value, serde_json::Error>)
    ensures
        r is Ok <==> json_accepts(text@),
{
    serde_json::from_str(text)
}

/// Relies on the `Display` of `serde_json::Error` for a readable description.
#[verifier::external_body]
fn json_error_text(e: &serde_json::Error) -> String {
    e.to_string()
}

/// The host of each base.
pub open spec fn base_url(base: Base) -> Seq<char> {
    match base {
        Base::Authenticated => "https://pro-api.solscan.io/v2.0"@,
        Base::Public => "https://public-api.solscan.io"@,
    }
}

fn base_url_text(base: Base) -> (r: &'static str)
    ensures
        r@ == base_url(base),
{
    match base {
        Base::Authenticated => "https://pro-api.solscan.io/v2.0",
        Base::Public => "https://public-api.solscan.io",
    }
}

/// The header that carries the credential.
pub open spec fn credential_header() -> Seq<char> {
    "token"@
}

pub open spec fn header_view(p: (String, String)) -> (Seq<char>, Seq<char>) {
    (p.0@, p.1@)
}

/// One outbound GET: where to, with which query and headers.
#[derive(Debug)]
pub struct OutboundRequest {
    pub url: String,
    pub query: UpstreamQuery,
    pub headers: Vec<(String, String)>,
}

/// The outcome of one call.
#[derive(Debug)]
pub enum UpstreamResult {
    /// The upstream's JSON, as it came.
    Success(serde_json::Value),
    Failure(Failure),
}

/// The dispatcher: it holds the credential and turns calls into requests.
pub struct SolscanApi {
    api_key: String,
}

impl SolscanApi {
    pub closed spec fn key(&self) -> Seq<char> {
        self.api_key@
    }

    pub fn new(api_key: String) -> (r: Self)
        ensures
            r.key() == api_key@,
    {
        SolscanApi { api_key }
    }

    /// Turns a call of the operation `name` with `bundle` into the one
    /// request to send, or the failure that ends the call before any request.
    pub fn prepare(&self, name: &str, bundle: &RequestBundle) -> (r: Result<OutboundRequest, Failure>)
        ensures
            match registered(name@) {
                None => r matches Err(Failure::UnknownOperation { name: n }) && n@ == name@,
                Some(op) => match r {
                    Ok(req) => {
                        &&& admissible(op, bundle@)
                        &&& req.url@ == base_url(op.base) + op.upstream_path@
                        &&& req.query@ == project(op.parameters, bundle@)
                        &&& req.headers@.map_values(|p: (String, String)| header_view(p)) == seq![
                            (credential_header(), self.key()),
                        ]
                    },
                    Err(f) => rejection(op, bundle@, f),
                },
            },
    {
        let op = match lookup(name) {
            Some(op) => op,
            None => {
                return Err(Failure::UnknownOperation { name: name.to_owned() });
            },
        };
        let query = match build_query(&op, bundle) {
            Ok(q) => q,
            Err(f) => {
                return Err(f);
            },
        };
        let mut url = base_url_text(op.base).to_owned();
        url.append(op.upstream_path);
        proof {
            reveal_strlit("token");
        }
        let headers = vec![("token".to_owned(), self.api_key.clone())];
        assert(headers@.map_values(|p: (String, String)| header_view(p)) =~= seq![
            (credential_header(), self.key()),
        ]);
        Ok(OutboundRequest { url, query, headers })
    }
}

/// Statuses 200 to 299.
pub open spec fn is_success_status(status: u16) -> bool {
    200 <= status <= 299
}

/// The body text reported when the body of an error response cannot be read.
pub open spec fn unreadable_body() -> Seq<char> {
    "Unknown error"@
}

/// Classifies the parse of a success response's body: the value itself, or
/// a `DecodeError`.
pub fn classify_parsed(parsed: Result<serde_json::Value, serde_json::Error>) -> (r: UpstreamResult)
    ensures
        match parsed {
            Ok(v) => r == UpstreamResult::Success(v),
            Err(_) => r matches UpstreamResult::Failure(Failure::DecodeError { .. }),
        },
{
    match parsed {
        Ok(v) => UpstreamResult::Success(v),
        Err(e) => UpstreamResult::Failure(Failure::DecodeError { message: json_error_text(&e) }),
    }
}

/// Classifies a completed exchange from its status and its body, which is
/// `Err` with the transport's message where it could not be read.
pub fn classify_response(status: u16, body: Result<String, String>) -> (r: UpstreamResult)
    ensures
        !is_success_status(status) ==> (r matches UpstreamResult::Failure(
            Failure::UpstreamError { status: s, body: b },
        ) && s == status && b@ == match body {
            Ok(t) => t@,
            Err(_) => unreadable_body(),
        }),
        is_success_status(status) ==> match body {
            Err(m) => (r matches UpstreamResult::Failure(Failure::TransportError { message })
                && message@ == m@),
            Ok(t) => {
                &&& r is Success <==> json_accepts(t@)
                &&& !json_accepts(t@) ==> r matches UpstreamResult::Failure(
                    Failure::DecodeError { .. },
                )
            },
        },
{
    if status < 200 || status > 299 {
        let text = match body {
            Ok(t) => t,
            Err(_) => "Unknown error".to_owned(),
        };
        return UpstreamResult::Failure(Failure::UpstreamError { status, body: text });
    }
    match body {
        Err(m) => UpstreamResult::Failure(Failure::TransportError { message: m }),
        Ok(t) => classify_parsed(parse_json(t.as_str())),
    }
}

} // verus!
