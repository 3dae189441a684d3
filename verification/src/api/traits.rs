//! The transport strategy contract every HTTP backend satisfies.

use super::common::HttpMethods;
use crate::client::normalized_outcome;
use crate::jsonval::json_of;
use crate::strutil::wrapped;
use serde_json::Value;
use vstd::prelude::*;

verus! {

/// The abstract content of a built request: what the caller asked the
/// transport to send, independent of the backend's own representation.
pub struct ReqView {
    /// The HTTP method.
    pub method: HttpMethods,
    /// The target URL.
    pub url: Seq<char>,
    /// Basic-authentication credentials, when attached.
    pub auth: Option<(Seq<char>, Seq<char>)>,
    /// The JSON payload, when attached.
    pub body: Option<Value>,
}

/// The abstract content of an optional credential pair.
pub open spec fn auth_view(a: Option<(&str, &str)>) -> Option<(Seq<char>, Seq<char>)> {
    match a {
        Some((u, p)) => Some((u@, p@)),
        None => None,
    }
}

/// Whether a request view carries exactly a method, a URL and a
/// credential pair.
pub open spec fn req_parts(
    rv: ReqView,
    m: HttpMethods,
    url: Seq<char>,
    user: Seq<char>,
    pass: Seq<char>,
) -> bool {
    &&& rv.method == m
    &&& rv.url == url
    &&& rv.auth == Some((user, pass))
}

/// A transport strategy: builds a backend-native request from plain parts
/// and executes it against the API host.
///
/// Every backend must build a request that carries exactly the method, URL,
/// credentials and body it was handed, and must refuse an absent method —
/// with one fixed error text — rather than panic.  What `invoke_request`
/// returns depends on the network, but never its shape: a success is some
/// text's JSON value, a failure is a prefixed transport error or the
/// normalized outcome of some raw response, as
/// [`crate::client::normalize_response`] pins it.
pub trait Service: Sized {
    /// The backend-native representation of a built request.
    type Output;

    /// The abstract content a built request carries.  Backends override
    /// this; an implementation that keeps the default makes no request
    /// promise.
    open spec fn req_view(req: &Self::Output) -> ReqView {
        arbitrary()
    }

    /// Builds a backend-native request from the given parts.
    fn new_request(
        &self,
        method: Option<HttpMethods>,
        url: &str,
        user_auth: Option<(&str, &str)>,
        body: Option<Value>,
    ) -> (r: Result<Self::Output, String>)
        ensures
            r matches Ok(req) ==> method matches Some(m) && Self::req_view(&req) == (ReqView {
                method: m,
                url: url@,
                auth: auth_view(user_auth),
                body: body,
            }),
            method is None ==> (r matches Err(e) && e@
                == "Failed to create request: no method given"@),
    ;

    /// Executes a built request, blocking until a response or a transport
    /// failure, and decodes the response.  Every backend reports the same
    /// taxonomy: a success is a decoded JSON value; a failure is either a
    /// transport error under its fixed prefix, or the normalized outcome
    /// of some status and body text.
    fn invoke_request(&self, request: Self::Output) -> (r: Result<Value, String>)
        ensures
            r matches Ok(v) ==> exists|t: Seq<char>| #[trigger] json_of(t) == Some(v),
            r matches Err(e) ==> wrapped("Transport error: "@, e@) || (exists|status: u16, t: Seq<
                char,
            >| #[trigger] normalized_outcome(status, t, r)),
    ;
}

} // verus!
