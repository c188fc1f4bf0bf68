//! The endpoint dispatch framework: descriptor values configure a
//! method, path, query and body; per-surface clients resolve the URL and
//! attach exactly their own authentication headers; responses are
//! checked by status and decoded into typed records or typed errors.

use vstd::prelude::*;

use crate::json::{spec_parse_json, spec_print, print_json, Json, JsonV};
use crate::Error;
use vstd::string::StringSliceAdditionalSpecFns;

pub mod broker;
pub mod market_data;
pub mod trading;

verus! {

/// The HTTP method of one remote operation.
#[derive(Debug, Clone, Copy, PartialEq, Eq, Structural)]
pub enum Method {
    Get,
    Post,
    Patch,
    Delete,
}

impl Method {
    /// The method's wire name.
    pub open spec fn spec_name(self) -> Seq<char> {
        match self {
            Method::Get => "GET"@,
            Method::Post => "POST"@,
            Method::Patch => "PATCH"@,
            Method::Delete => "DELETE"@,
        }
    }

    /// Renders the method name.
    pub fn name(&self) -> (r: &'static str)
        ensures
            r@ == self.spec_name(),
    {
        match self {
            Method::Get => "GET",
            Method::Post => "POST",
            Method::Patch => "PATCH",
            Method::Delete => "DELETE",
        }
    }
}

/// What a descriptor contributes to a request: the method, the path
/// below the surface's base URL, the query parameters, and the JSON
/// body, if any.
#[derive(Debug)]
pub struct RequestParts {
    pub method: Method,
    pub path: String,
    pub query: Vec<(String, String)>,
    pub body: Option<Json>,
}

/// The model of a `RequestParts`.
pub struct RequestPartsV {
    pub method: Method,
    pub path: Seq<char>,
    pub query: Seq<(Seq<char>, Seq<char>)>,
    pub body: Option<JsonV>,
}

impl View for RequestParts {
    type V = RequestPartsV;

    open spec fn view(&self) -> RequestPartsV {
        RequestPartsV {
            method: self.method,
            path: self.path@,
            query: self.query.deep_view(),
            body: match &self.body {
                Some(j) => Some(j@),
                None => None,
            },
        }
    }
}

/// A fully configured outgoing request: everything the transport needs,
/// with the body already printed and the authentication headers
/// attached.
#[derive(Debug, Clone)]
pub struct OutgoingRequest {
    pub method: Method,
    pub url: String,
    pub query: Vec<(String, String)>,
    pub headers: Vec<(String, String)>,
    pub body: Option<String>,
}

/// The model of an `OutgoingRequest`.
pub struct OutgoingRequestV {
    pub method: Method,
    pub url: Seq<char>,
    pub query: Seq<(Seq<char>, Seq<char>)>,
    pub headers: Seq<(Seq<char>, Seq<char>)>,
    pub body: Option<Seq<char>>,
}

impl View for OutgoingRequest {
    type V = OutgoingRequestV;

    open spec fn view(&self) -> OutgoingRequestV {
        OutgoingRequestV {
            method: self.method,
            url: self.url@,
            query: self.query.deep_view(),
            headers: self.headers.deep_view(),
            body: match &self.body {
                Some(b) => Some(b@),
                None => None,
            },
        }
    }
}

/// One remote operation, described once: its method, path, query and
/// body are a function of the descriptor's fields alone.
pub trait Endpoint {
    /// The configured parts, as a function of the descriptor value.
    spec fn spec_parts(&self) -> RequestPartsV;

    /// Configures the request parts from this descriptor.
    fn parts(&self) -> (r: RequestParts)
        ensures
            r@ == self.spec_parts(),
    ;
}

/// Marks a descriptor as valid against the standalone trading surface.
pub trait TradingEndpoint: Endpoint {

}

/// Marks a descriptor as valid against the broker surface at
/// organization level.
pub trait BrokerEndpoint: Endpoint {

}

/// Marks a descriptor as valid against the market-data surface.
pub trait MarketDataEndpoint: Endpoint {

}

/// Marks a descriptor as valid against one sub-account of the broker
/// surface, and gives its account-scoped path.
pub trait AccountEndpoint: Endpoint {
    /// The path of this operation below the broker base URL, for the
    /// given account.
    spec fn spec_account_path(&self, id: Seq<char>) -> Seq<char>;

    /// Resolves the account-scoped path.
    fn account_path(&self, id: &str) -> (r: String)
        ensures
            r@ == self.spec_account_path(id@),
    ;
}

/// Pushes one query pair.
pub fn push_pair(q: &mut Vec<(String, String)>, k: &str, v: String)
    ensures
        final(q).deep_view() == old(q).deep_view().push((k@, v@)),
        final(q)@.len() == old(q)@.len() + 1,
{
    let ghost before = q.deep_view();
    let ghost vv = v@;
    q.push((k.to_owned(), v));
    proof {
        assert(q.deep_view() =~= before.push((k@, vv)));
    }
}

/// The query pair contributed by an optional field: nothing when it is
/// unset, never an empty value.
pub open spec fn opt_pair(k: Seq<char>, v: Option<Seq<char>>) -> Seq<(Seq<char>, Seq<char>)> {
    match v {
        Some(s) => seq![(k, s)],
        None => Seq::empty(),
    }
}

/// The rendered query string: `key=value` pairs joined by `&`, values
/// carried as given — a comma in a list value stays a comma.
pub open spec fn spec_query_string(q: Seq<(Seq<char>, Seq<char>)>) -> Seq<char>
    decreases q.len(),
{
    if q.len() == 0 {
        Seq::empty()
    } else if q.len() == 1 {
        q[0].0 + seq!['='] + q[0].1
    } else {
        spec_query_string(q.drop_last()) + seq!['&'] + q[q.len() - 1].0 + seq!['='] + q[q.len()
            - 1].1
    }
}

/// Renders the query pairs as one query string.
#[verifier::loop_isolation(false)]
pub fn query_string(q: &Vec<(String, String)>) -> (r: String)
    ensures
        r@ == spec_query_string(q.deep_view()),
{
    let ghost dv = q.deep_view();
    let mut out = String::new();
    let mut i: usize = 0;
    while i < q.len()
        invariant
            0 <= i <= q@.len(),
            dv == q.deep_view(),
            dv.len() == q@.len(),
            forall|k: int|
                0 <= k < q@.len() ==> #[trigger] dv[k] == (q@[k].0@, q@[k].1@),
            out@ == spec_query_string(dv.take(i as int)),
        decreases q@.len() - i,
    {
        if i > 0 {
            out.append("&");
        }
        out.append(q[i].0.as_str());
        out.append("=");
        out.append(q[i].1.as_str());
        proof {
            reveal_strlit("&");
            reveal_strlit("=");
            assert(dv.take(i + 1).drop_last() =~= dv.take(i as int));
            assert(dv.take(i + 1)[i as int] == dv[i as int]);
            if i == 0 {
                assert(out@ =~= spec_query_string(dv.take(1)));
            } else {
                assert(out@ =~= spec_query_string(dv.take(i + 1)));
            }
        }
        i = i + 1;
    }
    proof {
        assert(dv.take(q@.len() as int) =~= dv);
    }
    out
}

/// The complete request target: the URL, and the query string after a
/// question mark when any parameter is present.
pub open spec fn spec_target(r: OutgoingRequestV) -> Seq<char> {
    if r.query.len() == 0 {
        r.url
    } else {
        r.url + seq!['?'] + spec_query_string(r.query)
    }
}

impl OutgoingRequest {
    /// Renders the complete request target.
    pub fn target(&self) -> (r: String)
        ensures
            r@ == spec_target(self@),
    {
        if self.query.len() == 0 {
            self.url.clone()
        } else {
            let mut out = self.url.clone();
            out.append("?");
            out.append(query_string(&self.query).as_str());
            proof {
                reveal_strlit("?");
                assert(out@ =~= self@.url + seq!['?'] + spec_query_string(self@.query));
            }
            out
        }
    }
}

/// The base64 form of a byte string under the standard alphabet with
/// padding, named only: the codec itself is the outside crate's.
pub uninterp spec fn base64_std_of(bytes: Seq<u8>) -> Seq<char>;

/// Relies on base64's `STANDARD` engine via `Engine::encode`: the
/// encoding is a function of the input bytes alone, and an empty input
/// encodes to an empty string.
#[verifier::external_body]
fn base64_encode(s: &str) -> (r: String)
    requires
        s@.len() <= 250000000,
    ensures
        r@ == base64_std_of(s.spec_bytes()),
        s.spec_bytes().len() == 0 ==> r@.len() == 0,
{
    base64::Engine::encode(&base64::engine::general_purpose::STANDARD, s.as_bytes())
}

/// The `Basic` authorization header value of a broker key.
pub open spec fn spec_basic_auth(key: Seq<char>) -> Seq<char> {
    "Basic "@ + base64_std_of(vstd::utf8::encode_utf8(key))
}

/// Builds the broker surface's `Authorization: Basic` header value from
/// the raw key; the key is base64-encoded here, never sent raw.
pub fn basic_auth_value(key: &str) -> (r: String)
    requires
        key@.len() <= 250000000,
    ensures
        r@ == spec_basic_auth(key@),
{
    let mut out = String::from_str("Basic ");
    let encoded = base64_encode(key);
    out.append(encoded.as_str());
    out
}

/// Splits a 2xx status from a failing one: a success passes the body
/// through, anything else becomes the HTTP status error carrying the
/// status and the raw body.
pub fn check_status(status: u16, body: String) -> (r: Result<String, Error>)
    ensures
        match r {
            Ok(b) => 200 <= status < 300 && b@ == body@,
            Err(e) => !(200 <= status < 300) && (e matches Error::Http {
                status: st,
                body: bd,
            } && st == status && bd@ == body@),
        },
{
    if 200 <= status && status < 300 {
        Ok(body)
    } else {
        Err(Error::Http { status, body })
    }
}

/// A response payload type: how the declared result of an endpoint is
/// read off a decoded JSON value.
pub trait ApiResponse: Sized {
    /// The mathematical model of a decoded value.
    type Model;

    /// What decoding a JSON value as this type yields.
    spec fn spec_decode_response(j: JsonV) -> Option<Self::Model>;

    /// The model of this value.
    spec fn model(&self) -> Self::Model;

    /// Decodes a JSON value as this type.
    fn decode_response(j: &Json) -> (r: Option<Self>)
        ensures
            match r {
                Some(v) => Self::spec_decode_response(j@) == Some(v.model()),
                None => Self::spec_decode_response(j@) is None,
            },
    ;
}

/// Interprets a textual response as the declared result type: a non-2xx
/// status is the HTTP status error with that status and body, never a
/// decode error; on a 2xx status the result is a function of the body
/// text alone — the decode error exactly when the body does not parse
/// as JSON or its JSON does not decode as the declared type, and
/// otherwise the value that the body's own JSON decodes to.
pub fn interpret_response<T: ApiResponse>(status: u16, body: String) -> (r: Result<T, Error>)
    ensures
        !(200 <= status < 300) ==> (r matches Err(e) && e matches Error::Http {
            status: st,
            body: bd,
        } && st == status && bd@ == body@),
        200 <= status < 300 ==> match r {
            Ok(v) => spec_parse_json(body@) matches Some(jv) && T::spec_decode_response(jv)
                == Some(v.model()),
            Err(e) => e is Json && match spec_parse_json(body@) {
                Some(jv) => T::spec_decode_response(jv) is None,
                None => true,
            },
        },
{
    let body = match check_status(status, body) {
        Ok(b) => b,
        Err(e) => {
            return Err(e);
        },
    };
    let parsed = match crate::json::parse_json(body.as_str()) {
        Some(j) => j,
        None => {
            return Err(Error::Json(String::from_str("response body is not valid JSON")));
        },
    };
    match T::decode_response(&parsed) {
        Some(v) => Ok(v),
        None => Err(
            Error::Json(String::from_str("response body does not match the declared result")),
        ),
    }
}

/// Interprets the response of an endpoint that returns no payload: any
/// 2xx status is success, anything else is the HTTP status error.
pub fn interpret_empty_response(status: u16, body: String) -> (r: Result<(), Error>)
    ensures
        match r {
            Ok(_) => 200 <= status < 300,
            Err(e) => !(200 <= status < 300) && (e matches Error::Http {
                status: st,
                body: bd,
            } && st == status && bd@ == body@),
        },
{
    match check_status(status, body) {
        Ok(_) => Ok(()),
        Err(e) => Err(e),
    }
}

/// The two key headers that authenticate the trading and market-data
/// surfaces.
pub open spec fn spec_trading_headers(key_id: Seq<char>, secret: Seq<char>) -> Seq<
    (Seq<char>, Seq<char>),
> {
    seq![("APCA-API-KEY-ID"@, key_id), ("APCA-API-SECRET-KEY"@, secret)]
}

/// The single `Authorization` header that authenticates the broker
/// surface.
pub open spec fn spec_broker_headers(key: Seq<char>) -> Seq<(Seq<char>, Seq<char>)> {
    seq![("Authorization"@, spec_basic_auth(key))]
}

/// A prepared request: the surface base URL joined with the path, the
/// descriptor's query, exactly the given headers, and the printed body.
pub open spec fn spec_assemble(
    base: Seq<char>,
    headers: Seq<(Seq<char>, Seq<char>)>,
    p: RequestPartsV,
) -> OutgoingRequestV {
    OutgoingRequestV {
        method: p.method,
        url: base + p.path,
        query: p.query,
        headers: headers,
        body: match p.body {
            Some(j) => Some(spec_print(j)),
            None => None,
        },
    }
}

/// Assembles the outgoing request from parts and headers.
pub fn assemble(base_url: &String, headers: Vec<(String, String)>, parts: RequestParts) -> (r:
    OutgoingRequest)
    ensures
        r@ == spec_assemble(base_url@, headers.deep_view(), parts@),
{
    let mut url = base_url.clone();
    url.append(parts.path.as_str());
    let body = match &parts.body {
        Some(j) => Some(print_json(j)),
        None => None,
    };
    let r = OutgoingRequest { method: parts.method, url, query: parts.query, headers, body };
    proof {
        assert(r@.url =~= base_url@ + parts@.path);
    }
    r
}

/// Builds the key-pair headers.
pub fn trading_headers(key_id: &String, secret: &String) -> (r: Vec<(String, String)>)
    ensures
        r.deep_view() == spec_trading_headers(key_id@, secret@),
{
    let mut h: Vec<(String, String)> = Vec::new();
    h.push((String::from_str("APCA-API-KEY-ID"), key_id.clone()));
    h.push((String::from_str("APCA-API-SECRET-KEY"), secret.clone()));
    proof {
        assert(h.deep_view() =~= spec_trading_headers(key_id@, secret@));
    }
    h
}

/// Builds the broker `Authorization` header.
pub fn broker_headers(key: &String) -> (r: Vec<(String, String)>)
    requires
        key@.len() <= 250000000,
    ensures
        r.deep_view() == spec_broker_headers(key@),
{
    let mut h: Vec<(String, String)> = Vec::new();
    h.push((String::from_str("Authorization"), basic_auth_value(key.as_str())));
    proof {
        assert(h.deep_view() =~= spec_broker_headers(key@));
    }
    h
}

/// The first query pair carrying the given key, if any.
pub open spec fn spec_qlookup(q: Seq<(Seq<char>, Seq<char>)>, key: Seq<char>) -> Option<Seq<char>>
    decreases q.len(),
{
    if q.len() == 0 {
        None
    } else if q[0].0 == key {
        Some(q[0].1)
    } else {
        spec_qlookup(q.drop_first(), key)
    }
}

/// Looking a key up in joined query-pair lists scans the first, then
/// the second.
pub proof fn lemma_qlookup_append(
    a: Seq<(Seq<char>, Seq<char>)>,
    b: Seq<(Seq<char>, Seq<char>)>,
    k: Seq<char>,
)
    ensures
        spec_qlookup(a + b, k) == match spec_qlookup(a, k) {
            Some(v) => Some(v),
            None => spec_qlookup(b, k),
        },
    decreases a.len(),
{
    if a.len() == 0 {
        assert(a + b =~= b);
    } else {
        assert((a + b)[0] == a[0]);
        assert((a + b).drop_first() =~= a.drop_first() + b);
        lemma_qlookup_append(a.drop_first(), b, k);
    }
}

} // verus!
