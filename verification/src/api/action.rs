//! The executable-unit resource (the platform calls it an action): its
//! typed shape, its JSON codec, the list projection, and its service.

use super::common::{collection_url, collection_url_view, entity_url, entity_url_view,
    HttpMethods, Limits};
use super::traits::{req_parts, Service};
use super::trigger::{decode_keyvalues, encode_keyvalues, kv_decodes, kv_items, kvs_encoded,
    KeyValue};
use crate::client::{Context, ContextView};
use crate::jsonval::{
    arr_items, arr_to_value, as_array_vec, as_str_string, bool_to_value, field_bool,
    field_bool_opt, field_i64, field_i64_opt, field_str, field_str_opt, get_bool_field, get_field,
    get_i64_field, get_opt_i64_field, get_str_field, i64_to_value, is_object, j_arr, j_get,
    j_is_obj, j_str, obj_insert, obj_new, obj_to_value, str_of, str_to_value, JsonMap,
};
use crate::strutil::{bool_str, bool_view, concat_str, wrapped};
use serde_json::Value;
use vstd::prelude::*;

verus! {

/// How an executable unit runs: its kind, code and entry points.
#[derive(Debug, Clone, Default)]
pub struct Exec {
    /// The runtime kind.
    pub kind: String,
    /// The code itself, when carried.
    pub code: String,
    /// The container image backing the unit.
    pub image: String,
    /// The initializer entry point.
    pub init: String,
    /// The main entry point.
    pub main: String,
    /// The components of a sequence unit.
    pub components: Vec<String>,
    /// Whether the code is a binary attachment.
    pub binary: bool,
}

/// A deployable executable unit with its metadata.
#[derive(Debug, Clone, Default)]
pub struct Action {
    /// The namespace the unit lives in.
    pub namespace: String,
    /// The unit's name.
    pub name: String,
    /// The unit's version.
    pub version: String,
    /// Execution limits.
    pub limits: Limits,
    /// How the unit runs.  (The wire member is `exec`; that word is a
    /// mode keyword here, so the field carries a longer name.)
    pub exec_props: Exec,
    /// An error the server attached to the record.
    pub error: String,
    /// Whether the unit is published.
    pub publish: bool,
    /// How often the unit has been updated.
    pub updated: i64,
    /// Annotations attached to the unit.
    pub annotations: Vec<KeyValue>,
}

/// The summary a listing narrows each full record to.
#[derive(Debug, Clone, Default, PartialEq, Eq)]
pub struct ActionList {
    /// The unit's name.
    pub name: String,
    /// The namespace the unit lives in.
    pub namespace: String,
}

/// How the limits member decodes: absent or malformed entries stay `None`.
pub open spec fn limits_of_value(v: Value) -> Limits {
    match j_get(v, "limits"@) {
        Some(l) => Limits {
            timeout: field_i64_opt(l, "timeout"@),
            memory: field_i64_opt(l, "memory"@),
            logsize: field_i64_opt(l, "logsize"@),
            concurrency: field_i64_opt(l, "concurrency"@),
        },
        None => Limits { timeout: None, memory: None, logsize: None, concurrency: None },
    }
}

/// Decodes the limits member of a record.
pub fn decode_limits(v: &Value) -> (r: Limits)
    ensures
        r == limits_of_value(*v),
{
    match get_field(v, "limits") {
        Some(l) => Limits {
            timeout: get_opt_i64_field(&l, "timeout"),
            memory: get_opt_i64_field(&l, "memory"),
            logsize: get_opt_i64_field(&l, "logsize"),
            concurrency: get_opt_i64_field(&l, "concurrency"),
        },
        None => Limits { timeout: None, memory: None, logsize: None, concurrency: None },
    }
}

/// How limits encode: present limits become members, absent ones are
/// left out.
pub open spec fn limits_encoded(lim: Limits, l: Value) -> bool {
    &&& field_i64_opt(l, "timeout"@) == lim.timeout
    &&& field_i64_opt(l, "memory"@) == lim.memory
    &&& field_i64_opt(l, "logsize"@) == lim.logsize
    &&& field_i64_opt(l, "concurrency"@) == lim.concurrency
}

/// Encodes limits as a JSON object, leaving absent limits out.
pub fn encode_limits(lim: &Limits) -> (r: Value)
    ensures
        limits_encoded(*lim, r),
{
    proof {
        crate::jsonval::lemma_wire_keys_distinct();
    }
    let mut m: JsonMap = obj_new();
    match lim.timeout {
        Some(t) => {
            m = obj_insert(m, "timeout", i64_to_value(t));
        },
        None => {},
    }
    match lim.memory {
        Some(t) => {
            m = obj_insert(m, "memory", i64_to_value(t));
        },
        None => {},
    }
    match lim.logsize {
        Some(t) => {
            m = obj_insert(m, "logsize", i64_to_value(t));
        },
        None => {},
    }
    match lim.concurrency {
        Some(t) => {
            m = obj_insert(m, "concurrency", i64_to_value(t));
        },
        None => {},
    }
    obj_to_value(m)
}

/// A string member of the exec member, empty when anything is absent.
pub open spec fn exec_field_str(v: Value, k: Seq<char>) -> Seq<char> {
    match j_get(v, "exec"@) {
        Some(e) => field_str(e, k),
        None => Seq::empty(),
    }
}

/// A boolean member of the exec member, defaulted when absent.
pub open spec fn exec_field_bool(v: Value, k: Seq<char>, d: bool) -> bool {
    match j_get(v, "exec"@) {
        Some(e) => field_bool(e, k, d),
        None => d,
    }
}

/// The elements of the exec member's components array.
pub open spec fn exec_components(v: Value) -> Seq<Value> {
    match j_get(v, "exec"@) {
        Some(e) => arr_items(e, "components"@),
        None => Seq::empty(),
    }
}

/// How the exec member decodes, defaulting every absent field.
pub open spec fn exec_decodes(v: Value, x: Exec) -> bool {
    &&& x.kind@ == exec_field_str(v, "kind"@)
    &&& x.code@ == exec_field_str(v, "code"@)
    &&& x.image@ == exec_field_str(v, "image"@)
    &&& x.init@ == exec_field_str(v, "init"@)
    &&& x.main@ == exec_field_str(v, "main"@)
    &&& x.binary == exec_field_bool(v, "binary"@, false)
    &&& x.components@.len() == exec_components(v).len()
    &&& forall|i: int|
        0 <= i < x.components@.len() ==> (#[trigger] x.components@[i])@ == str_of(
            exec_components(v)[i],
        )
}

/// Decodes the exec member of a record.
pub fn decode_exec(v: &Value) -> (r: Exec)
    ensures
        exec_decodes(*v, r),
{
    match get_field(v, "exec") {
        Some(e) => {
            let items: Vec<Value> = match get_field(&e, "components") {
                Some(a) => match as_array_vec(&a) {
                    Some(xs) => xs,
                    None => Vec::new(),
                },
                None => Vec::new(),
            };
            let ghost gitems = exec_components(*v);
            proof {
                assert(items@ =~= gitems);
            }
            let mut components: Vec<String> = Vec::new();
            let mut i: usize = 0;
            while i < items.len()
                invariant
                    0 <= i <= items.len(),
                    items@ == gitems,
                    components@.len() == i,
                    forall|j: int|
                        0 <= j < i ==> (#[trigger] components@[j])@ == str_of(gitems[j]),
                decreases items.len() - i,
            {
                let s = match as_str_string(&items[i]) {
                    Some(s) => s,
                    None => String::new(),
                };
                components.push(s);
                i = i + 1;
            }
            Exec {
                kind: get_str_field(&e, "kind"),
                code: get_str_field(&e, "code"),
                image: get_str_field(&e, "image"),
                init: get_str_field(&e, "init"),
                main: get_str_field(&e, "main"),
                components,
                binary: get_bool_field(&e, "binary", false),
            }
        },
        None => Exec {
            kind: String::new(),
            code: String::new(),
            image: String::new(),
            init: String::new(),
            main: String::new(),
            components: Vec::new(),
            binary: false,
        },
    }
}

/// How the exec member encodes.
pub open spec fn exec_encoded(x: Exec, e: Value) -> bool {
    &&& field_str_opt(e, "kind"@) == Some(x.kind@)
    &&& field_str_opt(e, "code"@) == Some(x.code@)
    &&& field_str_opt(e, "image"@) == Some(x.image@)
    &&& field_str_opt(e, "init"@) == Some(x.init@)
    &&& field_str_opt(e, "main"@) == Some(x.main@)
    &&& field_bool_opt(e, "binary"@) == Some(x.binary)
    &&& (j_get(e, "components"@) matches Some(c) && j_arr(c) matches Some(xs) && xs.len()
        == x.components@.len() && (forall|i: int|
        0 <= i < xs.len() ==> j_str(#[trigger] xs[i]) == Some(x.components@[i]@)))
}

/// Encodes the exec member of an insert body.
pub fn encode_exec(x: &Exec) -> (r: Value)
    ensures
        exec_encoded(*x, r),
{
    let mut comps: Vec<Value> = Vec::new();
    let mut i: usize = 0;
    while i < x.components.len()
        invariant
            0 <= i <= x.components@.len(),
            comps@.len() == i,
            forall|j: int| 0 <= j < i ==> j_str(#[trigger] comps@[j]) == Some(x.components@[j]@),
        decreases x.components@.len() - i,
    {
        comps.push(str_to_value(x.components[i].as_str()));
        i = i + 1;
    }
    proof {
        crate::jsonval::lemma_wire_keys_distinct();
    }
    let mut m: JsonMap = obj_new();
    m = obj_insert(m, "kind", str_to_value(x.kind.as_str()));
    m = obj_insert(m, "code", str_to_value(x.code.as_str()));
    m = obj_insert(m, "image", str_to_value(x.image.as_str()));
    m = obj_insert(m, "init", str_to_value(x.init.as_str()));
    m = obj_insert(m, "main", str_to_value(x.main.as_str()));
    m = obj_insert(m, "components", arr_to_value(comps));
    m = obj_insert(m, "binary", bool_to_value(x.binary));
    obj_to_value(m)
}

/// How a full record decodes, defaulting every absent field.
pub open spec fn action_decodes(v: Value, a: Action) -> bool {
    &&& a.namespace@ == field_str(v, "namespace"@)
    &&& a.name@ == field_str(v, "name"@)
    &&& a.version@ == field_str(v, "version"@)
    &&& a.error@ == field_str(v, "error"@)
    &&& a.publish == field_bool(v, "publish"@, false)
    &&& a.updated == field_i64(v, "updated"@, 0)
    &&& a.limits == limits_of_value(v)
    &&& exec_decodes(v, a.exec_props)
    &&& a.annotations@.len() == kv_items(v, "annotations"@).len()
    &&& forall|i: int|
        0 <= i < a.annotations@.len() ==> kv_decodes(
            kv_items(v, "annotations"@)[i],
            #[trigger] a.annotations@[i],
        )
}

/// Decodes a full record, defaulting absent fields.
pub fn decode_action(v: &Value) -> (r: Action)
    ensures
        action_decodes(*v, r),
{
    Action {
        namespace: get_str_field(v, "namespace"),
        name: get_str_field(v, "name"),
        version: get_str_field(v, "version"),
        limits: decode_limits(v),
        exec_props: decode_exec(v),
        error: get_str_field(v, "error"),
        publish: get_bool_field(v, "publish", false),
        updated: get_i64_field(v, "updated", 0),
        annotations: decode_keyvalues(v, "annotations"),
    }
}

/// How a record encodes as the body of an insert request.
pub open spec fn action_encoded(a: Action, v: Value) -> bool {
    &&& field_str_opt(v, "namespace"@) == Some(a.namespace@)
    &&& field_str_opt(v, "name"@) == Some(a.name@)
    &&& field_str_opt(v, "version"@) == Some(a.version@)
    &&& field_str_opt(v, "error"@) == Some(a.error@)
    &&& field_bool_opt(v, "publish"@) == Some(a.publish)
    &&& field_i64_opt(v, "updated"@) == Some(a.updated)
    &&& (j_get(v, "limits"@) matches Some(l) && limits_encoded(a.limits, l))
    &&& (j_get(v, "exec"@) matches Some(e) && exec_encoded(a.exec_props, e))
    &&& (j_get(v, "annotations"@) matches Some(ann) && kvs_encoded(a.annotations@, ann))
}

/// Encodes a record as the body of an insert request.
pub fn encode_action(a: &Action) -> (r: Value)
    ensures
        action_encoded(*a, r),
{
    proof {
        crate::jsonval::lemma_wire_keys_distinct();
    }
    let mut m: JsonMap = obj_new();
    m = obj_insert(m, "namespace", str_to_value(a.namespace.as_str()));
    m = obj_insert(m, "name", str_to_value(a.name.as_str()));
    m = obj_insert(m, "version", str_to_value(a.version.as_str()));
    m = obj_insert(m, "error", str_to_value(a.error.as_str()));
    m = obj_insert(m, "publish", bool_to_value(a.publish));
    m = obj_insert(m, "updated", i64_to_value(a.updated));
    m = obj_insert(m, "limits", encode_limits(&a.limits));
    m = obj_insert(m, "exec", encode_exec(&a.exec_props));
    m = obj_insert(m, "annotations", encode_keyvalues(&a.annotations));
    obj_to_value(m)
}

/// Encoding a record and decoding the result preserves it: the codec is
/// symmetric, field by field, limits and all.
pub proof fn lemma_action_codec_round_trip(a: Action, v: Value, a2: Action)
    requires
        action_encoded(a, v),
        action_decodes(v, a2),
    ensures
        a2.namespace@ == a.namespace@,
        a2.name@ == a.name@,
        a2.version@ == a.version@,
        a2.error@ == a.error@,
        a2.publish == a.publish,
        a2.updated == a.updated,
        a2.limits == a.limits,
        a2.exec_props.kind@ == a.exec_props.kind@,
        a2.exec_props.code@ == a.exec_props.code@,
        a2.exec_props.image@ == a.exec_props.image@,
        a2.exec_props.init@ == a.exec_props.init@,
        a2.exec_props.main@ == a.exec_props.main@,
        a2.exec_props.binary == a.exec_props.binary,
        a2.exec_props.components@.len() == a.exec_props.components@.len(),
        forall|i: int|
            0 <= i < a.exec_props.components@.len() ==> (
            #[trigger] a2.exec_props.components@[i])@ == a.exec_props.components@[i]@,
        a2.annotations@.len() == a.annotations@.len(),
        forall|i: int|
            0 <= i < a.annotations@.len() ==> (#[trigger] a2.annotations@[i]).key@
                == a.annotations@[i].key@ && a2.annotations@[i].value == a.annotations@[i].value,
{
    let e = j_get(v, "exec"@)->Some_0;
    let c = j_get(e, "components"@)->Some_0;
    let xs = j_arr(c)->Some_0;
    assert(exec_components(v) == xs);
    assert forall|i: int| 0 <= i < a.exec_props.components@.len() implies (
        #[trigger] a2.exec_props.components@[i])@ == a.exec_props.components@[i]@ by {
        assert(j_str(xs[i]) == Some(a.exec_props.components@[i]@));
        assert(a2.exec_props.components@[i]@ == str_of(exec_components(v)[i]));
    }
    let ann = j_get(v, "annotations"@)->Some_0;
    let ys = j_arr(ann)->Some_0;
    assert(kv_items(v, "annotations"@) == ys);
    assert forall|i: int| 0 <= i < a.annotations@.len() implies (
        #[trigger] a2.annotations@[i]).key@ == a.annotations@[i].key@ && a2.annotations@[i].value
        == a.annotations@[i].value by {
        assert(field_str_opt(ys[i], "key"@) == Some(a.annotations@[i].key@));
        assert(kv_decodes(ys[i], a2.annotations@[i]));
    }
}

/// Decodes the array of full records a listing returns.
pub fn decode_actions(v: &Value) -> (r: Result<Vec<Action>, String>)
    ensures
        j_arr(*v) matches Some(items) ==> (r matches Ok(l) && l@.len() == items.len() && (forall|
            i: int,
        |
            0 <= i < items.len() ==> action_decodes(items[i], #[trigger] l@[i]))),
        j_arr(*v) is None ==> (r matches Err(e) && e@
            == "Failed to deserialize actions: expected an array"@),
{
    let items: Vec<Value> = match as_array_vec(v) {
        Some(xs) => xs,
        None => {
            return Err(String::from_str("Failed to deserialize actions: expected an array"));
        },
    };
    let ghost gitems = j_arr(*v)->Some_0;
    let mut out: Vec<Action> = Vec::new();
    let mut i: usize = 0;
    while i < items.len()
        invariant
            0 <= i <= items.len(),
            items@ == gitems,
            out@.len() == i,
            forall|j: int| 0 <= j < i ==> action_decodes(gitems[j], #[trigger] out@[j]),
        decreases items.len() - i,
    {
        out.push(decode_action(&items[i]));
        i = i + 1;
    }
    Ok(out)
}

/// How a listing answer is narrowed to summaries: one per record of the
/// returned array, in order, carrying exactly that record's name and
/// namespace.
pub open spec fn action_summaries_of(v: Value, l: Seq<ActionList>) -> bool {
    match j_arr(v) {
        Some(items) => l.len() == items.len() && (forall|i: int|
            0 <= i < l.len() ==> (#[trigger] l[i]).name@ == field_str(items[i], "name"@)
                && l[i].namespace@ == field_str(items[i], "namespace"@)),
        None => false,
    }
}

/// Whether some returned JSON value narrows to these summaries.
pub open spec fn summaries_of_some_answer(l: Seq<ActionList>) -> bool {
    exists|v: Value| #[trigger] action_summaries_of(v, l)
}

/// Whether some returned JSON object decodes to this record.
pub open spec fn decodes_some_answer(a: Action) -> bool {
    exists|v: Value| j_is_obj(v) && #[trigger] action_decodes(v, a)
}

/// Narrows full records to their listing summaries: one summary per
/// record, in order, carrying exactly that record's name and namespace.
pub fn project_action_list(actions: &Vec<Action>) -> (r: Vec<ActionList>)
    ensures
        r@.len() == actions@.len(),
        forall|i: int|
            0 <= i < actions@.len() ==> (#[trigger] r@[i]).name@ == actions@[i].name@
                && r@[i].namespace@ == actions@[i].namespace@,
{
    let mut out: Vec<ActionList> = Vec::new();
    let mut i: usize = 0;
    while i < actions.len()
        invariant
            0 <= i <= actions@.len(),
            out@.len() == i,
            forall|j: int|
                0 <= j < i ==> (#[trigger] out@[j]).name@ == actions@[j].name@
                    && out@[j].namespace@ == actions@[j].namespace@,
        decreases actions@.len() - i,
    {
        out.push(
            ActionList {
                name: actions[i].name.clone(),
                namespace: actions[i].namespace.clone(),
            },
        );
        i = i + 1;
    }
    out
}

/// The executable-unit service: lists, fetches, maintains and invokes
/// units through the transport strategy and context it was built with.
#[derive(Debug, Clone)]
pub struct ActionService<T> {
    client: T,
    context: Context,
}

impl<T> ActionService<T> {
    /// The strategy handle this service delegates to.
    pub closed spec fn client(&self) -> T {
        self.client
    }

    /// The connection context every operation of this service uses.
    pub closed spec fn ctx(&self) -> ContextView {
        self.context@
    }
}

impl<T: Service> ActionService<T> {
    /// Builds the service around a strategy handle and a context.
    pub fn new(client: T, context: Context) -> (r: Self)
        ensures
            r.client() == client,
            r.ctx() == context@,
    {
        ActionService { client, context }
    }

    /// Builds the listing request: GET on the collection, authenticated,
    /// with no payload.
    pub fn build_list_request(&self) -> (r: Result<T::Output, String>)
        ensures
            r matches Ok(req) ==> req_parts(
                T::req_view(&req),
                HttpMethods::GET,
                collection_url_view(self.ctx().host, self.ctx().namespace, "actions"@),
                self.ctx().username,
                self.ctx().password,
            ) && T::req_view(&req).body is None,
            r matches Err(e) ==> wrapped("Failed to create request "@, e@),
    {
        let url = collection_url(self.context.host(), self.context.namespace(), "actions");
        let (user, pass) = self.context.auth();
        match self.client.new_request(
            Some(HttpMethods::GET),
            url.as_str(),
            Some((user, pass)),
            None,
        ) {
            Ok(request) => Ok(request),
            Err(error) => Err(concat_str("Failed to create request ", error.as_str())),
        }
    }

    /// Lists the units in the namespace, narrowed to summaries.
    ///
    /// Whatever array of records came back, the result is its summary
    /// projection, index for index; failures carry their category in the
    /// error text.
    pub fn list(&self) -> (r: Result<Vec<ActionList>, String>)
        ensures
            r matches Ok(l) ==> summaries_of_some_answer(l@),
            r matches Err(e) ==> wrapped("Failed to create request "@, e@) || wrapped(
                "Failed to fetch the list of actions "@,
                e@,
            ) || e@ == "Failed to deserialize actions: expected an array"@,
    {
        let request = match self.build_list_request() {
            Ok(request) => request,
            Err(error) => {
                return Err(error);
            },
        };
        match self.client.invoke_request(request) {
            Ok(value) => match decode_actions(&value) {
                Ok(actions) => {
                    let summaries = project_action_list(&actions);
                    proof {
                        let items = j_arr(value)->Some_0;
                        assert forall|i: int| 0 <= i < summaries@.len() implies (
                        #[trigger] summaries@[i]).name@ == field_str(items[i], "name"@)
                            && summaries@[i].namespace@ == field_str(items[i], "namespace"@) by {
                            assert(action_decodes(items[i], actions@[i]));
                        }
                        assert(action_summaries_of(value, summaries@));
                        assert(summaries_of_some_answer(summaries@));
                    }
                    Ok(summaries)
                },
                Err(error) => Err(error),
            },
            Err(error) => Err(concat_str("Failed to fetch the list of actions ", error.as_str())),
        }
    }

    /// Builds the fetch request for one unit: GET on the entity with the
    /// code flag, authenticated, with no payload.
    pub fn build_get_request(&self, action_name: &str, fetch_code: bool) -> (r: Result<
        T::Output,
        String,
    >)
        ensures
            r matches Ok(req) ==> req_parts(
                T::req_view(&req),
                HttpMethods::GET,
                entity_url_view(self.ctx().host, self.ctx().namespace, "actions"@, action_name@)
                    + "?code="@ + bool_view(fetch_code),
                self.ctx().username,
                self.ctx().password,
            ) && T::req_view(&req).body is None,
            r matches Err(e) ==> wrapped("Failed to create request "@, e@),
    {
        let mut url = entity_url(
            self.context.host(),
            self.context.namespace(),
            "actions",
            action_name,
        );
        url.append("?code=");
        url.append(bool_str(fetch_code));
        proof {
            assert(url@ =~= entity_url_view(
                self.ctx().host,
                self.ctx().namespace,
                "actions"@,
                action_name@,
            ) + "?code="@ + bool_view(fetch_code));
        }
        let (user, pass) = self.context.auth();
        match self.client.new_request(
            Some(HttpMethods::GET),
            url.as_str(),
            Some((user, pass)),
            None,
        ) {
            Ok(request) => Ok(request),
            Err(error) => Err(concat_str("Failed to create request ", error.as_str())),
        }
    }

    /// Fetches one unit's record by name; the flag asks the server to
    /// include the code attachment.  Whatever record came back decodes
    /// with every absent field defaulted.
    pub fn get(&self, action_name: &str, fetch_code: bool) -> (r: Result<Action, String>)
        ensures
            r matches Ok(a) ==> decodes_some_answer(a),
            r matches Err(e) ==> wrapped("Failed to create request "@, e@) || wrapped(
                "Failed to get action properties "@,
                e@,
            ) || e@ == "Failed to deserialize action: expected an object"@,
    {
        let request = match self.build_get_request(action_name, fetch_code) {
            Ok(request) => request,
            Err(error) => {
                return Err(error);
            },
        };
        match self.client.invoke_request(request) {
            Ok(value) => {
                if !is_object(&value) {
                    return Err(
                        String::from_str("Failed to deserialize action: expected an object"),
                    );
                }
                let a = decode_action(&value);
                proof {
                    assert(j_is_obj(value) && action_decodes(value, a));
                    assert(decodes_some_answer(a));
                }
                Ok(a)
            },
            Err(error) => Err(concat_str("Failed to get action properties ", error.as_str())),
        }
    }

    /// Builds the deletion request for one unit: DELETE on the entity
    /// with the code flag off, authenticated, with no payload.
    pub fn build_delete_request(&self, action_name: &str) -> (r: Result<T::Output, String>)
        ensures
            r matches Ok(req) ==> req_parts(
                T::req_view(&req),
                HttpMethods::DELETE,
                entity_url_view(self.ctx().host, self.ctx().namespace, "actions"@, action_name@)
                    + "?code=false"@,
                self.ctx().username,
                self.ctx().password,
            ) && T::req_view(&req).body is None,
            r matches Err(e) ==> wrapped("Failed to create request "@, e@),
    {
        let mut url = entity_url(
            self.context.host(),
            self.context.namespace(),
            "actions",
            action_name,
        );
        url.append("?code=false");
        proof {
            assert(url@ =~= entity_url_view(
                self.ctx().host,
                self.ctx().namespace,
                "actions"@,
                action_name@,
            ) + "?code=false"@);
        }
        let (user, pass) = self.context.auth();
        match self.client.new_request(
            Some(HttpMethods::DELETE),
            url.as_str(),
            Some((user, pass)),
            None,
        ) {
            Ok(request) => Ok(request),
            Err(error) => Err(concat_str("Failed to create request ", error.as_str())),
        }
    }

    /// Deletes a unit; the server echoes the removed record, which
    /// decodes with every absent field defaulted.
    pub fn delete(&self, action_name: &str) -> (r: Result<Action, String>)
        ensures
            r matches Ok(a) ==> decodes_some_answer(a),
            r matches Err(e) ==> wrapped("Failed to create request "@, e@) || wrapped(
                "Failed to get action properties "@,
                e@,
            ) || e@ == "Failed to deserialize action: expected an object"@,
    {
        let request = match self.build_delete_request(action_name) {
            Ok(request) => request,
            Err(error) => {
                return Err(error);
            },
        };
        match self.client.invoke_request(request) {
            Ok(value) => {
                if !is_object(&value) {
                    return Err(
                        String::from_str("Failed to deserialize action: expected an object"),
                    );
                }
                let a = decode_action(&value);
                proof {
                    assert(j_is_obj(value) && action_decodes(value, a));
                    assert(decodes_some_answer(a));
                }
                Ok(a)
            },
            Err(error) => Err(concat_str("Failed to get action properties ", error.as_str())),
        }
    }

    /// Builds the insert request for a unit: PUT on the entity with the
    /// overwrite flag, authenticated, carrying the encoded record.
    pub fn build_insert_request(&self, action: &Action, overwrite: bool) -> (r: Result<
        T::Output,
        String,
    >)
        ensures
            r matches Ok(req) ==> req_parts(
                T::req_view(&req),
                HttpMethods::PUT,
                entity_url_view(self.ctx().host, self.ctx().namespace, "actions"@, action.name@)
                    + "?overwrite="@ + bool_view(overwrite),
                self.ctx().username,
                self.ctx().password,
            ) && (T::req_view(&req).body matches Some(b) && action_encoded(*action, b)),
            r matches Err(e) ==> wrapped("Failed to create request "@, e@),
    {
        let mut url = entity_url(
            self.context.host(),
            self.context.namespace(),
            "actions",
            action.name.as_str(),
        );
        url.append("?overwrite=");
        url.append(bool_str(overwrite));
        proof {
            assert(url@ =~= entity_url_view(
                self.ctx().host,
                self.ctx().namespace,
                "actions"@,
                action.name@,
            ) + "?overwrite="@ + bool_view(overwrite));
        }
        let (user, pass) = self.context.auth();
        let body = encode_action(action);
        match self.client.new_request(
            Some(HttpMethods::PUT),
            url.as_str(),
            Some((user, pass)),
            Some(body),
        ) {
            Ok(request) => Ok(request),
            Err(error) => Err(concat_str("Failed to create request ", error.as_str())),
        }
    }

    /// Inserts a unit and returns the record the server stored.
    ///
    /// The outgoing body is pinned by [`build_insert_request`]; whatever
    /// record came back decodes with every absent field defaulted.
    pub fn insert(&self, action: &Action, overwrite: bool) -> (r: Result<Action, String>)
        ensures
            r matches Ok(a) ==> decodes_some_answer(a),
            r matches Err(e) ==> wrapped("Failed to create request "@, e@) || wrapped(
                "Failed to insert action "@,
                e@,
            ) || e@ == "Failed to deserialize action: expected an object"@,
    {
        let request = match self.build_insert_request(action, overwrite) {
            Ok(request) => request,
            Err(error) => {
                return Err(error);
            },
        };
        match self.client.invoke_request(request) {
            Ok(value) => {
                if !is_object(&value) {
                    return Err(
                        String::from_str("Failed to deserialize action: expected an object"),
                    );
                }
                let a = decode_action(&value);
                proof {
                    assert(j_is_obj(value) && action_decodes(value, a));
                    assert(decodes_some_answer(a));
                }
                Ok(a)
            },
            Err(error) => Err(concat_str("Failed to insert action ", error.as_str())),
        }
    }

    /// Builds the invocation request for a unit: POST on the entity with
    /// the blocking and result flags, authenticated, carrying the payload.
    pub fn build_invoke_request(
        &self,
        action_name: &str,
        payload: Value,
        blocking: bool,
        result: bool,
    ) -> (r: Result<T::Output, String>)
        ensures
            r matches Ok(req) ==> req_parts(
                T::req_view(&req),
                HttpMethods::POST,
                entity_url_view(self.ctx().host, self.ctx().namespace, "actions"@, action_name@)
                    + "?blocking="@ + bool_view(blocking) + "&result="@ + bool_view(result),
                self.ctx().username,
                self.ctx().password,
            ) && T::req_view(&req).body == Some(payload),
            r matches Err(e) ==> wrapped("Failed to create request "@, e@),
    {
        let mut url = entity_url(
            self.context.host(),
            self.context.namespace(),
            "actions",
            action_name,
        );
        url.append("?blocking=");
        url.append(bool_str(blocking));
        url.append("&result=");
        url.append(bool_str(result));
        proof {
            assert(url@ =~= entity_url_view(
                self.ctx().host,
                self.ctx().namespace,
                "actions"@,
                action_name@,
            ) + "?blocking="@ + bool_view(blocking) + "&result="@ + bool_view(result));
        }
        let (user, pass) = self.context.auth();
        match self.client.new_request(
            Some(HttpMethods::POST),
            url.as_str(),
            Some((user, pass)),
            Some(payload),
        ) {
            Ok(request) => Ok(request),
            Err(error) => Err(concat_str("Failed to create request ", error.as_str())),
        }
    }

    /// Invokes a unit with a payload; the answer is handed back as the
    /// server sent it, either the full activation record or only its
    /// result when `result` is set.
    pub fn invoke(
        &self,
        action_name: &str,
        payload: Value,
        blocking: bool,
        result: bool,
    ) -> (r: Result<Value, String>)
        ensures
            r matches Ok(v) ==> exists|t: Seq<char>| #[trigger] crate::jsonval::json_of(t) == Some(
                v,
            ),
            r matches Err(e) ==> wrapped("Failed to create request "@, e@) || wrapped(
                "Failed to invoke action "@,
                e@,
            ),
    {
        let request = match self.build_invoke_request(action_name, payload, blocking, result) {
            Ok(request) => request,
            Err(error) => {
                return Err(error);
            },
        };
        match self.client.invoke_request(request) {
            Ok(value) => Ok(value),
            Err(error) => Err(concat_str("Failed to invoke action ", error.as_str())),
        }
    }
}

} // verus!
