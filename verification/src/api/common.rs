//! Data shared by all resource services: the HTTP method set, resource
//! limit records, and the verified construction of endpoint URLs.

use vstd::prelude::*;

verus! {

/// The HTTP methods the API is spoken through.
#[derive(Clone, Copy, Debug, PartialEq, Eq, Structural)]
pub enum HttpMethods {
    GET,
    PUT,
    POST,
    DELETE,
}

/// The wire name of an HTTP method.
pub open spec fn method_name(m: HttpMethods) -> Seq<char> {
    match m {
        HttpMethods::GET => "GET"@,
        HttpMethods::PUT => "PUT"@,
        HttpMethods::POST => "POST"@,
        HttpMethods::DELETE => "DELETE"@,
    }
}

/// Renders an HTTP method as its wire name.
pub fn method_str(m: HttpMethods) -> (r: &'static str)
    ensures
        r@ == method_name(m),
{
    match m {
        HttpMethods::GET => "GET",
        HttpMethods::PUT => "PUT",
        HttpMethods::POST => "POST",
        HttpMethods::DELETE => "DELETE",
    }
}

/// Execution limits attached to a resource; absent limits stay `None`.
#[derive(Debug, Clone, PartialEq, Eq, Default)]
pub struct Limits {
    /// Time allowed per activation, in milliseconds.
    pub timeout: Option<i64>,
    /// Memory allowed per activation, in megabytes.
    pub memory: Option<i64>,
    /// Size allowed for the activation log.
    pub logsize: Option<i64>,
    /// Number of activations processed at once.
    pub concurrency: Option<i64>,
}

/// The URL of a resource collection inside a namespace.
pub open spec fn collection_url_view(host: Seq<char>, ns: Seq<char>, coll: Seq<char>) -> Seq<
    char,
> {
    host + "/api/v1/namespaces/"@ + ns + "/"@ + coll
}

/// The URL of one named resource inside a collection.
pub open spec fn entity_url_view(
    host: Seq<char>,
    ns: Seq<char>,
    coll: Seq<char>,
    name: Seq<char>,
) -> Seq<char> {
    collection_url_view(host, ns, coll) + "/"@ + name
}

/// Builds the URL of a resource collection inside a namespace.
pub fn collection_url(host: &str, ns: &str, coll: &str) -> (r: String)
    ensures
        r@ == collection_url_view(host@, ns@, coll@),
{
    let mut s = host.to_owned();
    s.append("/api/v1/namespaces/");
    s.append(ns);
    s.append("/");
    s.append(coll);
    proof {
        assert(s@ =~= collection_url_view(host@, ns@, coll@));
    }
    s
}

/// Builds the URL of one named resource inside a collection.
pub fn entity_url(host: &str, ns: &str, coll: &str, name: &str) -> (r: String)
    ensures
        r@ == entity_url_view(host@, ns@, coll@, name@),
{
    let mut s = collection_url(host, ns, coll);
    s.append("/");
    s.append(name);
    proof {
        assert(s@ =~= entity_url_view(host@, ns@, coll@, name@));
    }
    s
}

} // verus!
