//! The native transport backend: a reusable blocking HTTP client.
//!
//! Request construction and response normalization are verified; the
//! `reqwest` calls themselves sit behind small trusted wrappers, and the
//! abstract content of each built request rides along as a ghost view.

use super::common::{normalize_response, normalized_outcome, OpenWhisk};
use crate::api::{auth_view, HttpMethods, ReqView, Service};
use crate::jsonval::{json_of, obj_new, obj_to_value};
use crate::strutil::concat_str;
use serde_json::Value;
use vstd::prelude::*;

verus! {

#[verifier::external_type_specification]
#[verifier::external_body]
pub struct ExReqwestClient(reqwest::blocking::Client);

#[verifier::external_type_specification]
#[verifier::external_body]
pub struct ExReqwestRequestBuilder(reqwest::blocking::RequestBuilder);

#[verifier::external_type_specification]
#[verifier::external_body]
pub struct ExReqwestResponse(reqwest::blocking::Response);

/// Relies on `reqwest::blocking::ClientBuilder`: builds a pooled client
/// with certificate validation disabled and no request timeout.  For this
/// configuration `build` does not fail.
#[verifier::external_body]
fn build_client_insecure() -> reqwest::blocking::Client {
    reqwest::blocking::Client::builder()
        .danger_accept_invalid_certs(true)
        .timeout(None)
        .build()
        .unwrap()
}

/// Relies on `reqwest::blocking::ClientBuilder`: builds a pooled client
/// with default certificate validation and no request timeout.  For this
/// configuration `build` does not fail.
#[verifier::external_body]
fn build_client_secure() -> reqwest::blocking::Client {
    reqwest::blocking::Client::builder().timeout(None).build().unwrap()
}

/// Relies on `reqwest::blocking::Client::clone`: the clone shares the
/// same reference-counted connection pool, so it is the same client.
#[verifier::external_body]
fn clone_client(c: &reqwest::blocking::Client) -> (r: reqwest::blocking::Client)
    ensures
        r == *c,
{
    c.clone()
}

/// Relies on `reqwest::blocking::Client::get`.
#[verifier::external_body]
fn client_get(c: &reqwest::blocking::Client, url: &str) -> reqwest::blocking::RequestBuilder {
    c.get(url)
}

/// Relies on `reqwest::blocking::Client::post`.
#[verifier::external_body]
fn client_post(c: &reqwest::blocking::Client, url: &str) -> reqwest::blocking::RequestBuilder {
    c.post(url)
}

/// Relies on `reqwest::blocking::Client::put`.
#[verifier::external_body]
fn client_put(c: &reqwest::blocking::Client, url: &str) -> reqwest::blocking::RequestBuilder {
    c.put(url)
}

/// Relies on `reqwest::blocking::Client::delete`.
#[verifier::external_body]
fn client_delete(c: &reqwest::blocking::Client, url: &str) -> reqwest::blocking::RequestBuilder {
    c.delete(url)
}

/// Relies on `reqwest::blocking::RequestBuilder::basic_auth`: attaches
/// HTTP basic authentication.
#[verifier::external_body]
fn rb_basic_auth(
    rb: reqwest::blocking::RequestBuilder,
    user: &str,
    pass: &str,
) -> reqwest::blocking::RequestBuilder {
    rb.basic_auth(user, Some(pass))
}

/// Relies on `reqwest::blocking::RequestBuilder::json`: serializes the
/// value as the request payload with a JSON content type.
#[verifier::external_body]
fn rb_json(
    rb: reqwest::blocking::RequestBuilder,
    body: &Value,
) -> reqwest::blocking::RequestBuilder {
    rb.json(body)
}

/// Relies on `reqwest::blocking::RequestBuilder::send`: blocks until a
/// response or a transport failure.
#[verifier::external_body]
fn rb_send(rb: reqwest::blocking::RequestBuilder) -> Result<reqwest::blocking::Response, String> {
    rb.send().map_err(|e| e.to_string())
}

/// Relies on `reqwest::blocking::Response::status` and
/// `http::StatusCode::as_u16`.
#[verifier::external_body]
fn resp_status(resp: &reqwest::blocking::Response) -> u16 {
    resp.status().as_u16()
}

/// Relies on `reqwest::blocking::Response::text`: reads the full
/// response body as text.
#[verifier::external_body]
fn resp_text(resp: reqwest::blocking::Response) -> Result<String, String> {
    resp.text().map_err(|e| e.to_string())
}

/// The native transport strategy, backed by a reusable blocking HTTP
/// client.
#[derive(Debug)]
pub struct NativeClient(reqwest::blocking::Client);

impl Clone for NativeClient {
    /// The clone shares the same underlying connection pool: it is the
    /// same client.
    fn clone(&self) -> (r: Self)
        ensures
            r == *self,
    {
        NativeClient(clone_client(&self.0))
    }
}

/// A built native request: the backend's request builder, paired with
/// the abstract content it was built from.
pub struct NativeRequest {
    /// The backend-native request under construction.
    pub builder: reqwest::blocking::RequestBuilder,
    /// The abstract content the request carries.
    pub view: Ghost<ReqView>,
}

impl OpenWhisk for NativeClient {
    type Output = NativeClient;

    /// Creates the blocking client: with the insecure flag, certificate
    /// validation is disabled; either way no request timeout applies.
    fn new_whisk_client(insecure: Option<bool>) -> NativeClient {
        match insecure {
            Some(true) => NativeClient(build_client_insecure()),
            Some(false) => NativeClient(build_client_secure()),
            None => unreached(),
        }
    }
}

impl Service for NativeClient {
    type Output = NativeRequest;

    open spec fn req_view(req: &NativeRequest) -> ReqView {
        req.view@
    }

    /// Builds a native request carrying exactly the parts it was handed.
    /// A GET omits the payload; any other method carries the body, or an
    /// empty JSON object when none was given.
    fn new_request(
        &self,
        method: Option<HttpMethods>,
        url: &str,
        user_auth: Option<(&str, &str)>,
        body: Option<Value>,
    ) -> (r: Result<NativeRequest, String>)
        ensures
            method is Some ==> r is Ok,
    {
        let m = match method {
            Some(m) => m,
            None => {
                return Err(String::from_str("Failed to create request: no method given"));
            },
        };
        let ghost gbody = body;
        let mut rb = match m {
            HttpMethods::GET => client_get(&self.0, url),
            HttpMethods::POST => client_post(&self.0, url),
            HttpMethods::PUT => client_put(&self.0, url),
            HttpMethods::DELETE => client_delete(&self.0, url),
        };
        rb = match user_auth {
            Some((user, pass)) => rb_basic_auth(rb, user, pass),
            None => rb,
        };
        rb = match m {
            HttpMethods::GET => rb,
            _ => {
                let payload = match body {
                    Some(b) => b,
                    None => obj_to_value(obj_new()),
                };
                rb_json(rb, &payload)
            },
        };
        Ok(
            NativeRequest {
                builder: rb,
                view: Ghost(
                    ReqView { method: m, url: url@, auth: auth_view(user_auth), body: gbody },
                ),
            },
        )
    }

    /// Sends the request and normalizes the outcome: the decoded JSON
    /// body on a success status, a status or decode error otherwise, and
    /// a prefixed transport error when no response could be read.
    fn invoke_request(&self, request: NativeRequest) -> Result<Value, String> {
        let resp = match rb_send(request.builder) {
            Ok(resp) => resp,
            Err(error) => {
                return Err(concat_str("Transport error: ", error.as_str()));
            },
        };
        let status = resp_status(&resp);
        let text = match resp_text(resp) {
            Ok(text) => text,
            Err(error) => {
                return Err(concat_str("Transport error: ", error.as_str()));
            },
        };
        let r = normalize_response(status, text.as_str());
        proof {
            assert(normalized_outcome(status, text@, r));
        }
        r
    }
}

} // verus!
