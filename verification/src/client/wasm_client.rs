//! The sandboxed transport backend for restricted execution environments.
//!
//! This variant does not open sockets: it builds complete HTTP requests
//! (with a fixed header set chosen at construction, basic authentication
//! encoded inline, and the payload serialized to bytes) and normalizes
//! raw responses, while the host call that actually carries a request to
//! the network is performed by the embedder.  Request construction and
//! response normalization are verified; the `http`, `bytes` and `base64`
//! calls sit behind small trusted wrappers.

use super::common::{normalize_response, normalized_outcome, OpenWhisk};
use crate::api::{auth_view, method_str, HttpMethods, ReqView};
use crate::jsonval::to_json_bytes;
use crate::strutil::{concat_str, wrapped};
use serde_json::Value;
use vstd::prelude::*;

verus! {

#[verifier::external_type_specification]
#[verifier::external_body]
pub struct ExHttpBuilder(http::request::Builder);

#[verifier::external_type_specification]
#[verifier::external_body]
#[verifier::reject_recursive_types(T)]
pub struct ExHttpRequest<T>(http::Request<T>);

#[verifier::external_type_specification]
#[verifier::external_body]
pub struct ExBytes(bytes::Bytes);

/// The base64 rendering of a piece of text's bytes.
pub uninterp spec fn b64_of(s: Seq<char>) -> Seq<char>;

/// Relies on `base64::encode`: the rendering depends on the input alone.
#[verifier::external_body]
fn base64_encode(s: &str) -> (r: String)
    ensures
        r@ == b64_of(s@),
{
    base64::encode(s)
}

/// The text that a byte sequence holds, if it is valid UTF-8.
pub uninterp spec fn utf8_of(b: Seq<u8>) -> Option<Seq<char>>;

/// Relies on `String::from_utf8`: succeeds exactly on valid UTF-8, and
/// the text depends on the bytes alone.
#[verifier::external_body]
fn bytes_to_string(b: Vec<u8>) -> (r: Option<String>)
    ensures
        r matches Some(s) ==> utf8_of(b@) == Some(s@),
        r is None ==> utf8_of(b@) is None,
{
    String::from_utf8(b).ok()
}

/// Relies on `http::request::Builder::new`.
#[verifier::external_body]
fn builder_new() -> http::request::Builder {
    http::request::Builder::new()
}

/// Relies on `http::request::Builder::header`.
#[verifier::external_body]
fn builder_header(b: http::request::Builder, k: &str, v: &str) -> http::request::Builder {
    b.header(k, v)
}

/// Relies on `http::request::Builder::method`.
#[verifier::external_body]
fn builder_method(b: http::request::Builder, m: &str) -> http::request::Builder {
    b.method(m)
}

/// Relies on `http::request::Builder::uri`.
#[verifier::external_body]
fn builder_uri(b: http::request::Builder, url: &str) -> http::request::Builder {
    b.uri(url)
}

/// Relies on `http::request::Builder::body`: finishes the request; an
/// invalid method, URI or header collected earlier surfaces here as an
/// error.
#[verifier::external_body]
fn builder_body(b: http::request::Builder, body: Option<bytes::Bytes>) -> Result<
    http::Request<Option<bytes::Bytes>>,
    String,
> {
    b.body(body).map_err(|e| e.to_string())
}

/// Relies on `bytes::Bytes::from` for `Vec<u8>`.
#[verifier::external_body]
fn bytes_from_vec(v: Vec<u8>) -> bytes::Bytes {
    bytes::Bytes::from(v)
}

/// The sandboxed transport strategy: a fixed header set merged into
/// every request it builds.
#[derive(Debug, Clone)]
pub struct WasmClient {
    headers: Vec<(String, String)>,
}

/// A built sandboxed request: the complete HTTP request for the host to
/// carry, paired with the abstract content it was built from.
pub struct WasmRequest {
    /// The complete request, ready for the host call.
    pub request: http::Request<Option<bytes::Bytes>>,
    /// The abstract content the request carries.
    pub view: Ghost<ReqView>,
    /// The headers attached while building, in order.
    pub sent_headers: Ghost<Seq<(Seq<char>, Seq<char>)>>,
}

/// The abstract content of a fixed header set.
pub open spec fn header_views(hs: Seq<(String, String)>) -> Seq<(Seq<char>, Seq<char>)> {
    hs.map_values(|p: (String, String)| (p.0@, p.1@))
}

/// The headers a sandboxed request must carry: the JSON content type,
/// then the client's fixed set, then basic authentication when
/// credentials were given.
pub open spec fn sent_header_list(
    fixed: Seq<(String, String)>,
    auth: Option<(Seq<char>, Seq<char>)>,
) -> Seq<(Seq<char>, Seq<char>)> {
    let base = seq![("Content-Type"@, "application/json"@)] + header_views(fixed);
    match auth {
        Some((u, p)) => base + seq![("Authorization"@, "Basic "@ + b64_of(u + ":"@ + p))],
        None => base,
    }
}

impl WasmClient {
    /// The fixed header set merged into every built request.
    pub closed spec fn header_view(&self) -> Seq<(String, String)> {
        self.headers@
    }

    /// Builds the client with its fixed header set: a single
    /// insecure-upgrade indicator header reflecting the flag.
    pub fn make(insecure: bool) -> (r: Self)
        ensures
            r.header_view().len() == 1,
            insecure ==> r.header_view()[0].0@ == "Upgrade-Insecure-Requests"@
                && r.header_view()[0].1@ == "1"@,
            !insecure ==> r.header_view()[0].0@ == "upgrade-insecure-requests"@
                && r.header_view()[0].1@ == "0"@,
    {
        let mut headers: Vec<(String, String)> = Vec::new();
        if insecure {
            headers.push(
                (String::from_str("Upgrade-Insecure-Requests"), String::from_str("1")),
            );
        } else {
            headers.push(
                (String::from_str("upgrade-insecure-requests"), String::from_str("0")),
            );
        }
        WasmClient { headers }
    }

    /// Builds a complete HTTP request carrying exactly the parts it was
    /// handed: the JSON content type and the fixed header set are merged
    /// into it, credentials become an inline basic-authentication header,
    /// and the payload is serialized to bytes (an empty JSON object when
    /// none was given).
    pub fn new_request(
        &self,
        method: Option<HttpMethods>,
        url: &str,
        user_auth: Option<(&str, &str)>,
        body: Option<Value>,
    ) -> (r: Result<WasmRequest, String>)
        ensures
            r matches Ok(req) ==> method matches Some(m) && req.view@ == (ReqView {
                method: m,
                url: url@,
                auth: auth_view(user_auth),
                body: body,
            }) && req.sent_headers@ == sent_header_list(self.header_view(), auth_view(user_auth)),
            method is None ==> (r matches Err(e) && e@
                == "Failed to create request: no method given"@),
            method is Some ==> (r matches Err(e) ==> wrapped(
                "Failed to serialize request body: "@,
                e@,
            ) || wrapped("Failed to build request: "@, e@)),
            (r matches Err(e) && e@ == "Failed to create request: no method given"@)
                ==> method is None,
    {
        let m = match method {
            Some(m) => m,
            None => {
                return Err(String::from_str("Failed to create request: no method given"));
            },
        };
        proof {
            reveal_strlit("Failed to create request: no method given");
            reveal_strlit("Failed to serialize request body: ");
            reveal_strlit("Failed to build request: ");
            assert("Failed to serialize request body: "@.len() == 34);
            assert("Failed to build request: "@.len() == 25);
            assert("Failed to create request: no method given"@[10] == 'c');
            assert("Failed to serialize request body: "@[10] == 's');
            assert("Failed to build request: "@[10] == 'b');
        }
        let ghost gbody = body;
        let ghost hv = header_views(self.headers@);
        let mut b = builder_new();
        b = builder_header(b, "Content-Type", "application/json");
        let ghost base = seq![("Content-Type"@, "application/json"@)];
        let ghost mut hs: Seq<(Seq<char>, Seq<char>)> = base;
        let mut i: usize = 0;
        while i < self.headers.len()
            invariant
                0 <= i <= self.headers@.len(),
                hv == header_views(self.headers@),
                hv.len() == self.headers@.len(),
                hs =~= base + hv.subrange(0, i as int),
            decreases self.headers@.len() - i,
        {
            b = builder_header(b, self.headers[i].0.as_str(), self.headers[i].1.as_str());
            proof {
                hs = hs.push((self.headers@[i as int].0@, self.headers@[i as int].1@));
                assert(hv[i as int] == (self.headers@[i as int].0@, self.headers@[i as int].1@));
                assert(hs =~= base + hv.subrange(0, i + 1 as int));
            }
            i = i + 1;
        }
        proof {
            assert(hv.subrange(0, hv.len() as int) =~= hv);
            assert(hs =~= base + header_views(self.header_view()));
        }
        let payload: Vec<u8> = match &body {
            Some(v) => match to_json_bytes(v) {
                Ok(bs) => bs,
                Err(error) => {
                    let msg = concat_str("Failed to serialize request body: ", error.as_str());
                    proof {
                        assert(msg@[10] == 's');
                        assert(msg@ != "Failed to create request: no method given"@);
                    }
                    return Err(msg);
                },
            },
            None => {
                let mut empty: Vec<u8> = Vec::new();
                empty.push(123u8);
                empty.push(125u8);
                empty
            },
        };
        match user_auth {
            Some((user, pass)) => {
                let mut creds = user.to_owned();
                creds.append(":");
                creds.append(pass);
                let encoded = base64_encode(creds.as_str());
                let mut header_value = String::from_str("Basic ");
                header_value.append(encoded.as_str());
                proof {
                    assert(creds@ =~= user@ + ":"@ + pass@);
                    assert(header_value@ =~= "Basic "@ + b64_of(user@ + ":"@ + pass@));
                }
                b = builder_header(b, "Authorization", header_value.as_str());
                proof {
                    hs = hs.push(("Authorization"@, header_value@));
                    assert(hs =~= sent_header_list(self.header_view(), auth_view(user_auth)));
                }
            },
            None => {
                proof {
                    assert(hs =~= sent_header_list(self.header_view(), auth_view(user_auth)));
                }
            },
        }
        b = builder_method(b, method_str(m));
        b = builder_uri(b, url);
        let request = match builder_body(b, Some(bytes_from_vec(payload))) {
            Ok(request) => request,
            Err(error) => {
                let msg = concat_str("Failed to build request: ", error.as_str());
                proof {
                    assert(msg@[10] == 'b');
                    assert(msg@ != "Failed to create request: no method given"@);
                }
                return Err(msg);
            },
        };
        Ok(
            WasmRequest {
                request,
                view: Ghost(
                    ReqView { method: m, url: url@, auth: auth_view(user_auth), body: gbody },
                ),
                sent_headers: Ghost(hs),
            },
        )
    }

    /// Normalizes a raw host response exactly as the native backend
    /// normalizes its own: the body is read fully, a non-UTF-8 body is a
    /// reported error rather than a crash, and the (status, text) pair is
    /// then pinned by [`normalized_outcome`].
    pub fn decode_response(&self, status: u16, body: Vec<u8>) -> (r: Result<Value, String>)
        ensures
            utf8_of(body@) is None ==> (r matches Err(e) && e@
                == "Response body is not valid UTF-8"@),
            utf8_of(body@) matches Some(s) ==> normalized_outcome(status, s, r),
    {
        let text = match bytes_to_string(body) {
            Some(text) => text,
            None => {
                return Err(String::from_str("Response body is not valid UTF-8"));
            },
        };
        normalize_response(status, text.as_str())
    }
}

impl OpenWhisk for WasmClient {
    type Output = WasmClient;

    /// Creates the sandboxed client with its fixed header set: a single
    /// insecure-upgrade indicator header reflecting the flag.
    fn new_whisk_client(insecure: Option<bool>) -> (r: WasmClient)
        ensures
            r.header_view().len() == 1,
            insecure == Some(true) ==> r.header_view()[0].0@ == "Upgrade-Insecure-Requests"@
                && r.header_view()[0].1@ == "1"@,
            insecure == Some(false) ==> r.header_view()[0].0@ == "upgrade-insecure-requests"@
                && r.header_view()[0].1@ == "0"@,
    {
        match insecure {
            Some(x) => WasmClient::make(x),
            None => unreached(),
        }
    }
}

} // verus!
