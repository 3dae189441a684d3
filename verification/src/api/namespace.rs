//! The namespace resource: only a listing, decoded as plain names.

use super::common::HttpMethods;
use super::traits::{req_parts, Service};
use crate::client::{Context, ContextView};
use crate::jsonval::{as_array_vec, as_str_string, j_arr, j_str};
use crate::strutil::{concat_str, wrapped};
use vstd::prelude::*;

verus! {

/// Whether every element of a JSON array is a string.
pub open spec fn all_strings(items: Seq<serde_json::Value>) -> bool {
    forall|i: int| 0 <= i < items.len() ==> #[trigger] j_str(items[i]) is Some
}

/// Decodes the array of namespace names a listing returns: every element
/// must be a string, else the answer has an unexpected shape.
pub fn decode_namespaces(v: &serde_json::Value) -> (r: Result<Vec<String>, String>)
    ensures
        j_arr(*v) matches Some(items) ==> (all_strings(items) ==> (r matches Ok(l) && l@.len()
            == items.len() && (forall|i: int|
            0 <= i < items.len() ==> #[trigger] j_str(items[i]) == Some(l@[i]@)))),
        j_arr(*v) matches Some(items) ==> (!all_strings(items) ==> r is Err),
        j_arr(*v) is None ==> r is Err,
        r matches Err(e) ==> e@ == "Failed to deserialize namespaces: expected an array of strings"@,
{
    let items: Vec<serde_json::Value> = match as_array_vec(v) {
        Some(xs) => xs,
        None => {
            return Err(
                String::from_str("Failed to deserialize namespaces: expected an array of strings"),
            );
        },
    };
    let ghost gitems = j_arr(*v)->Some_0;
    let mut out: Vec<String> = Vec::new();
    let mut i: usize = 0;
    while i < items.len()
        invariant
            0 <= i <= items.len(),
            items@ == gitems,
            j_arr(*v) == Some(gitems),
            out@.len() == i,
            forall|j: int| 0 <= j < i ==> #[trigger] j_str(gitems[j]) == Some(out@[j]@),
        decreases items.len() - i,
    {
        match as_str_string(&items[i]) {
            Some(s) => {
                out.push(s);
            },
            None => {
                proof {
                    assert(!all_strings(gitems)) by {
                        assert(j_str(gitems[i as int]) is None);
                    }
                }
                return Err(
                    String::from_str(
                        "Failed to deserialize namespaces: expected an array of strings",
                    ),
                );
            },
        }
        i = i + 1;
    }
    proof {
        assert(forall|k: int|
            0 <= k < gitems.len() ==> #[trigger] j_str(gitems[k]) == Some(out@[k]@));
    }
    Ok(out)
}

/// How a listing answer decodes: every element a string, one name per
/// element, in order.
pub open spec fn names_listed(v: serde_json::Value, l: Seq<String>) -> bool {
    match j_arr(v) {
        Some(items) => all_strings(items) && l.len() == items.len() && (forall|i: int|
            0 <= i < l.len() ==> j_str(items[i]) == Some((#[trigger] l[i])@)),
        None => false,
    }
}

/// Whether some returned JSON value lists as these names.
pub open spec fn names_of_some_answer(l: Seq<String>) -> bool {
    exists|v: serde_json::Value| #[trigger] names_listed(v, l)
}

/// The namespace service: lists the namespaces the credentials reach.
#[derive(Debug, Clone)]
pub struct NamespaceService<T> {
    client: T,
    context: Context,
}

impl<T> NamespaceService<T> {
    /// The strategy handle this service delegates to.
    pub closed spec fn client(&self) -> T {
        self.client
    }

    /// The connection context every operation of this service uses.
    pub closed spec fn ctx(&self) -> ContextView {
        self.context@
    }
}

impl<T: Service> NamespaceService<T> {
    /// Builds the service around a strategy handle and a context.
    pub fn new(client: T, context: Context) -> (r: Self)
        ensures
            r.client() == client,
            r.ctx() == context@,
    {
        NamespaceService { client, context }
    }

    /// Builds the listing request: GET on the namespace collection,
    /// authenticated, with no payload.
    pub fn build_list_request(&self) -> (r: Result<T::Output, String>)
        ensures
            r matches Ok(req) ==> req_parts(
                T::req_view(&req),
                HttpMethods::GET,
                self.ctx().host + "/api/v1/namespaces/"@,
                self.ctx().username,
                self.ctx().password,
            ) && T::req_view(&req).body is None,
            r matches Err(e) ==> wrapped("Failed to create request "@, e@),
    {
        let mut url = self.context.host().to_owned();
        url.append("/api/v1/namespaces/");
        let (user, pass) = self.context.auth();
        match self.client.new_request(
            Some(HttpMethods::GET),
            url.as_str(),
            Some((user, pass)),
            None,
        ) {
            Ok(request) => Ok(request),
            Err(error) => Err(concat_str("Failed to create request ", error.as_str())),
        }
    }

    /// Lists the namespaces available to the credentials.  Whatever
    /// array of names came back, the result is exactly those names.
    pub fn list(&self) -> (r: Result<Vec<String>, String>)
        ensures
            r matches Ok(l) ==> names_of_some_answer(l@),
            r matches Err(e) ==> wrapped("Failed to create request "@, e@) || wrapped(
                "Failed to fetch the list of available namespaces "@,
                e@,
            ) || e@ == "Failed to deserialize namespaces: expected an array of strings"@,
    {
        let request = match self.build_list_request() {
            Ok(request) => request,
            Err(error) => {
                return Err(error);
            },
        };
        match self.client.invoke_request(request) {
            Ok(value) => match decode_namespaces(&value) {
                Ok(names) => {
                    proof {
                        assert(j_arr(value) is Some);
                        assert(all_strings(j_arr(value)->Some_0));
                        assert(names_listed(value, names@));
                        assert(names_of_some_answer(names@));
                    }
                    Ok(names)
                },
                Err(error) => Err(error),
            },
            Err(error) => Err(
                concat_str("Failed to fetch the list of available namespaces ", error.as_str()),
            ),
        }
    }
}

} // verus!
