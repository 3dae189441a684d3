//! The trigger resource: its typed shape, its JSON codec and its service.

use super::common::{collection_url, collection_url_view, entity_url, entity_url_view,
    HttpMethods, Limits};
use super::traits::{req_parts, Service};
use crate::client::{Context, ContextView};
use crate::jsonval::{
    arr_to_value, as_array_vec, bool_to_value, field_bool, field_i64, field_str,
    field_str_opt, get_bool_field, get_field, get_i64_field, get_str_field,
    get_value_field_or_null, i64_to_value, is_object, j_arr, j_get, j_is_obj, obj_insert,
    obj_new, obj_to_value, str_to_value, JsonMap,
};
use crate::strutil::{bool_str, bool_view, concat_str, wrapped};
use serde_json::Value;
use vstd::prelude::*;

verus! {

/// One annotation or parameter: a named JSON value.
#[derive(Debug, Clone)]
pub struct KeyValue {
    /// The key naming the value.
    pub key: String,
    /// The value itself.
    pub value: Value,
}

/// A named event source that can be fired to invoke bound rules.
#[derive(Debug, Clone, Default)]
pub struct Trigger {
    /// The namespace the trigger lives in.
    pub namespace: String,
    /// The trigger's name.
    pub name: String,
    /// The trigger's version.
    pub version: String,
    /// Whether the trigger is published.
    pub publish: bool,
    /// How often the trigger has been updated.
    pub updated: i64,
    /// Annotations attached to the trigger.
    pub annotations: Vec<KeyValue>,
    /// Parameters handed to the trigger.
    pub parameters: Vec<KeyValue>,
    /// Rate limits; never carried over the wire.
    pub limits: Limits,
}

/// Options when listing triggers.
#[derive(Debug, Clone)]
pub struct TriggerListOptions {
    /// The limit for the number of triggers returned.
    pub limit: i64,
    /// How many entries to skip.
    pub skip: i64,
    /// Whether full documents are requested.
    pub docs: bool,
}

/// The elements of an array member, empty when absent or not an array.
pub open spec fn kv_items(v: Value, k: Seq<char>) -> Seq<Value> {
    crate::jsonval::arr_items(v, k)
}

/// How one key-value pair decodes from its JSON object.
pub open spec fn kv_decodes(v: Value, kv: KeyValue) -> bool {
    &&& kv.key@ == field_str(v, "key"@)
    &&& (j_get(v, "value"@) matches Some(x) ==> kv.value == x)
}

/// Decodes an array member of key-value objects, one pair per element.
pub fn decode_keyvalues(v: &Value, k: &str) -> (r: Vec<KeyValue>)
    ensures
        r@.len() == kv_items(*v, k@).len(),
        forall|i: int| 0 <= i < r@.len() ==> kv_decodes(kv_items(*v, k@)[i], r@[i]),
{
    let items: Vec<Value> = match get_field(v, k) {
        Some(a) => match as_array_vec(&a) {
            Some(xs) => xs,
            None => Vec::new(),
        },
        None => Vec::new(),
    };
    let ghost gitems = kv_items(*v, k@);
    proof {
        assert(items@ =~= gitems);
    }
    let mut out: Vec<KeyValue> = Vec::new();
    let mut i: usize = 0;
    while i < items.len()
        invariant
            0 <= i <= items.len(),
            items@ == gitems,
            out@.len() == i,
            forall|j: int| 0 <= j < i ==> kv_decodes(gitems[j], out@[j]),
        decreases items.len() - i,
    {
        let item = &items[i];
        let key = get_str_field(item, "key");
        let value = get_value_field_or_null(item, "value");
        out.push(KeyValue { key, value });
        i = i + 1;
    }
    out
}

/// How a sequence of key-value pairs encodes to a JSON array.
pub open spec fn kvs_encoded(kvs: Seq<KeyValue>, v: Value) -> bool {
    match j_arr(v) {
        Some(xs) => {
            &&& xs.len() == kvs.len()
            &&& forall|i: int|
                0 <= i < kvs.len() ==> field_str_opt(#[trigger] xs[i], "key"@) == Some(kvs[i].key@)
                    && j_get(xs[i], "value"@) == Some(kvs[i].value)
        },
        None => false,
    }
}

/// Encodes key-value pairs as a JSON array of `{key, value}` objects.
pub fn encode_keyvalues(kvs: &Vec<KeyValue>) -> (r: Value)
    ensures
        kvs_encoded(kvs@, r),
{
    let mut out: Vec<Value> = Vec::new();
    let mut i: usize = 0;
    while i < kvs.len()
        invariant
            0 <= i <= kvs.len(),
            out@.len() == i,
            forall|j: int|
                0 <= j < i ==> field_str_opt(#[trigger] out@[j], "key"@) == Some(kvs@[j].key@)
                    && j_get(out@[j], "value"@) == Some(kvs@[j].value),
        decreases kvs.len() - i,
    {
        proof {
            crate::jsonval::lemma_wire_keys_distinct();
        }
        let mut m: JsonMap = obj_new();
        m = obj_insert(m, "key", str_to_value(kvs[i].key.as_str()));
        m = obj_insert(m, "value", kvs[i].value.clone());
        out.push(obj_to_value(m));
        i = i + 1;
    }
    arr_to_value(out)
}

/// How a trigger decodes from its JSON record: strings, booleans and
/// integers default when absent, and limits never come over the wire.
pub open spec fn trigger_decodes(v: Value, t: Trigger) -> bool {
    &&& t.namespace@ == field_str(v, "namespace"@)
    &&& t.name@ == field_str(v, "name"@)
    &&& t.version@ == field_str(v, "version"@)
    &&& t.publish == field_bool(v, "publish"@, false)
    &&& t.updated == field_i64(v, "updated"@, 0)
    &&& t.annotations@.len() == kv_items(v, "annotations"@).len()
    &&& forall|i: int|
        0 <= i < t.annotations@.len() ==> kv_decodes(
            kv_items(v, "annotations"@)[i],
            #[trigger] t.annotations@[i],
        )
    &&& t.parameters@.len() == kv_items(v, "parameters"@).len()
    &&& forall|i: int|
        0 <= i < t.parameters@.len() ==> kv_decodes(
            kv_items(v, "parameters"@)[i],
            #[trigger] t.parameters@[i],
        )
    &&& t.limits == (Limits { timeout: None, memory: None, logsize: None, concurrency: None })
}

/// Decodes a trigger record, defaulting absent fields.
pub fn decode_trigger(v: &Value) -> (r: Trigger)
    ensures
        trigger_decodes(*v, r),
{
    Trigger {
        namespace: get_str_field(v, "namespace"),
        name: get_str_field(v, "name"),
        version: get_str_field(v, "version"),
        publish: get_bool_field(v, "publish", false),
        updated: get_i64_field(v, "updated", 0),
        annotations: decode_keyvalues(v, "annotations"),
        parameters: decode_keyvalues(v, "parameters"),
        limits: Limits { timeout: None, memory: None, logsize: None, concurrency: None },
    }
}

/// How a trigger encodes to its JSON record; limits are left out.
pub open spec fn trigger_encoded(t: Trigger, v: Value) -> bool {
    &&& field_str_opt(v, "namespace"@) == Some(t.namespace@)
    &&& field_str_opt(v, "name"@) == Some(t.name@)
    &&& field_str_opt(v, "version"@) == Some(t.version@)
    &&& (j_get(v, "publish"@) matches Some(b) && crate::jsonval::j_bool(b) == Some(t.publish))
    &&& (j_get(v, "updated"@) matches Some(u) && crate::jsonval::j_i64(u) == Some(t.updated))
    &&& (j_get(v, "annotations"@) matches Some(a) && kvs_encoded(t.annotations@, a))
    &&& (j_get(v, "parameters"@) matches Some(p) && kvs_encoded(t.parameters@, p))
    &&& j_get(v, "limits"@) is None
}

/// Encodes a trigger as the body of an insert request.
pub fn encode_trigger(t: &Trigger) -> (r: Value)
    ensures
        trigger_encoded(*t, r),
{
    proof {
        crate::jsonval::lemma_wire_keys_distinct();
    }
    let mut m: JsonMap = obj_new();
    m = obj_insert(m, "namespace", str_to_value(t.namespace.as_str()));
    m = obj_insert(m, "name", str_to_value(t.name.as_str()));
    m = obj_insert(m, "version", str_to_value(t.version.as_str()));
    m = obj_insert(m, "publish", bool_to_value(t.publish));
    m = obj_insert(m, "updated", i64_to_value(t.updated));
    m = obj_insert(m, "annotations", encode_keyvalues(&t.annotations));
    m = obj_insert(m, "parameters", encode_keyvalues(&t.parameters));
    obj_to_value(m)
}

/// Encoding a trigger and decoding the result preserves it: the codec
/// is symmetric, field by field, and limits come back at their default.
pub proof fn lemma_trigger_codec_round_trip(t: Trigger, v: Value, t2: Trigger)
    requires
        trigger_encoded(t, v),
        trigger_decodes(v, t2),
    ensures
        t2.namespace@ == t.namespace@,
        t2.name@ == t.name@,
        t2.version@ == t.version@,
        t2.publish == t.publish,
        t2.updated == t.updated,
        t2.annotations@.len() == t.annotations@.len(),
        forall|i: int|
            0 <= i < t.annotations@.len() ==> (#[trigger] t2.annotations@[i]).key@
                == t.annotations@[i].key@ && t2.annotations@[i].value == t.annotations@[i].value,
        t2.parameters@.len() == t.parameters@.len(),
        forall|i: int|
            0 <= i < t.parameters@.len() ==> (#[trigger] t2.parameters@[i]).key@
                == t.parameters@[i].key@ && t2.parameters@[i].value == t.parameters@[i].value,
        t2.limits == (Limits { timeout: None, memory: None, logsize: None, concurrency: None }),
{
    let ann = j_get(v, "annotations"@)->Some_0;
    let xs = j_arr(ann)->Some_0;
    assert(kv_items(v, "annotations"@) == xs);
    assert forall|i: int| 0 <= i < t.annotations@.len() implies (
        #[trigger] t2.annotations@[i]).key@ == t.annotations@[i].key@ && t2.annotations@[i].value
        == t.annotations@[i].value by {
        assert(field_str_opt(xs[i], "key"@) == Some(t.annotations@[i].key@));
        assert(kv_decodes(xs[i], t2.annotations@[i]));
    }
    let par = j_get(v, "parameters"@)->Some_0;
    let ys = j_arr(par)->Some_0;
    assert(kv_items(v, "parameters"@) == ys);
    assert forall|i: int| 0 <= i < t.parameters@.len() implies (
        #[trigger] t2.parameters@[i]).key@ == t.parameters@[i].key@ && t2.parameters@[i].value
        == t.parameters@[i].value by {
        assert(field_str_opt(ys[i], "key"@) == Some(t.parameters@[i].key@));
        assert(kv_decodes(ys[i], t2.parameters@[i]));
    }
}

/// How a listing answer decodes: one trigger per record of the
/// returned array, in order.
pub open spec fn triggers_listed(v: Value, l: Seq<Trigger>) -> bool {
    match j_arr(v) {
        Some(items) => l.len() == items.len() && (forall|i: int|
            0 <= i < l.len() ==> trigger_decodes(items[i], #[trigger] l[i])),
        None => false,
    }
}

/// Whether some returned JSON value lists as these triggers.
pub open spec fn triggers_of_some_answer(l: Seq<Trigger>) -> bool {
    exists|v: Value| #[trigger] triggers_listed(v, l)
}

/// Whether some returned JSON object decodes to this trigger.
pub open spec fn trigger_decodes_some_answer(t: Trigger) -> bool {
    exists|v: Value| j_is_obj(v) && #[trigger] trigger_decodes(v, t)
}

/// Decodes the array of trigger records a listing returns.
pub fn decode_triggers(v: &Value) -> (r: Result<Vec<Trigger>, String>)
    ensures
        j_arr(*v) matches Some(items) ==> (r matches Ok(l) && l@.len() == items.len() && (forall|
            i: int,
        |
            0 <= i < items.len() ==> trigger_decodes(items[i], #[trigger] l@[i]))),
        j_arr(*v) is None ==> (r matches Err(e) && e@
            == "Failed to deserialize triggers: expected an array"@),
{
    let items: Vec<Value> = match as_array_vec(v) {
        Some(xs) => xs,
        None => {
            return Err(String::from_str("Failed to deserialize triggers: expected an array"));
        },
    };
    let ghost gitems = j_arr(*v)->Some_0;
    let mut out: Vec<Trigger> = Vec::new();
    let mut i: usize = 0;
    while i < items.len()
        invariant
            0 <= i <= items.len(),
            items@ == gitems,
            out@.len() == i,
            forall|j: int| 0 <= j < i ==> trigger_decodes(gitems[j], #[trigger] out@[j]),
        decreases items.len() - i,
    {
        out.push(decode_trigger(&items[i]));
        i = i + 1;
    }
    Ok(out)
}

/// The trigger service: fires, lists and maintains triggers through the
/// transport strategy and context it was built with.
#[derive(Debug, Clone)]
pub struct TriggerService<T> {
    client: T,
    context: Context,
}

impl<T> TriggerService<T> {
    /// The strategy handle this service delegates to.
    pub closed spec fn client(&self) -> T {
        self.client
    }

    /// The connection context every operation of this service uses.
    pub closed spec fn ctx(&self) -> ContextView {
        self.context@
    }
}

impl<T: Service> TriggerService<T> {
    /// Builds the service around a strategy handle and a context.
    pub fn new(client: T, context: Context) -> (r: Self)
        ensures
            r.client() == client,
            r.ctx() == context@,
    {
        TriggerService { client, context }
    }

    /// Builds the listing request: GET on the collection, authenticated,
    /// with no payload.
    pub fn build_list_request(&self) -> (r: Result<T::Output, String>)
        ensures
            r matches Ok(req) ==> req_parts(
                T::req_view(&req),
                HttpMethods::GET,
                collection_url_view(self.ctx().host, self.ctx().namespace, "triggers"@),
                self.ctx().username,
                self.ctx().password,
            ) && T::req_view(&req).body is None,
            r matches Err(e) ==> wrapped("Failed to create request "@, e@),
    {
        let url = collection_url(self.context.host(), self.context.namespace(), "triggers");
        let (user, pass) = self.context.auth();
        match self.client.new_request(
            Some(HttpMethods::GET),
            url.as_str(),
            Some((user, pass)),
            None,
        ) {
            Ok(request) => Ok(request),
            Err(error) => Err(concat_str("Failed to create request ", error.as_str())),
        }
    }

    /// Lists the triggers in the namespace.  Whatever array of records
    /// came back, the result is its decoding, index for index.
    pub fn list(&self) -> (r: Result<Vec<Trigger>, String>)
        ensures
            r matches Ok(l) ==> triggers_of_some_answer(l@),
            r matches Err(e) ==> wrapped("Failed to create request "@, e@) || wrapped(
                "Failed to fetch the list of triggers "@,
                e@,
            ) || e@ == "Failed to deserialize triggers: expected an array"@,
    {
        let request = match self.build_list_request() {
            Ok(request) => request,
            Err(error) => {
                return Err(error);
            },
        };
        match self.client.invoke_request(request) {
            Ok(value) => match decode_triggers(&value) {
                Ok(triggers) => {
                    proof {
                        assert(triggers_listed(value, triggers@));
                        assert(triggers_of_some_answer(triggers@));
                    }
                    Ok(triggers)
                },
                Err(error) => Err(error),
            },
            Err(error) => Err(concat_str("Failed to fetch the list of triggers ", error.as_str())),
        }
    }

    /// Builds the insert request for a trigger: PUT on the entity with
    /// the overwrite flag, authenticated, carrying the encoded record.
    pub fn build_insert_request(&self, trigger: &Trigger, overwrite: bool) -> (r: Result<
        T::Output,
        String,
    >)
        ensures
            r matches Ok(req) ==> req_parts(
                T::req_view(&req),
                HttpMethods::PUT,
                entity_url_view(self.ctx().host, self.ctx().namespace, "triggers"@, trigger.name@)
                    + "?overwrite="@ + bool_view(overwrite),
                self.ctx().username,
                self.ctx().password,
            ) && (T::req_view(&req).body matches Some(b) && trigger_encoded(*trigger, b)),
            r matches Err(e) ==> wrapped("Failed to create request "@, e@),
    {
        let mut url = entity_url(
            self.context.host(),
            self.context.namespace(),
            "triggers",
            trigger.name.as_str(),
        );
        url.append("?overwrite=");
        url.append(bool_str(overwrite));
        proof {
            assert(url@ =~= entity_url_view(
                self.ctx().host,
                self.ctx().namespace,
                "triggers"@,
                trigger.name@,
            ) + "?overwrite="@ + bool_view(overwrite));
        }
        let (user, pass) = self.context.auth();
        let body = encode_trigger(trigger);
        match self.client.new_request(
            Some(HttpMethods::PUT),
            url.as_str(),
            Some((user, pass)),
            Some(body),
        ) {
            Ok(request) => Ok(request),
            Err(error) => Err(concat_str("Failed to create request ", error.as_str())),
        }
    }

    /// Inserts a trigger and returns the record the server stored.
    ///
    /// The outgoing body is pinned by [`build_insert_request`]; whatever
    /// record came back decodes with every absent field defaulted.
    pub fn insert(&self, trigger: &Trigger, overwrite: bool) -> (r: Result<Trigger, String>)
        ensures
            r matches Ok(t) ==> trigger_decodes_some_answer(t),
            r matches Err(e) ==> wrapped("Failed to create request "@, e@) || wrapped(
                "Failed to insert trigger "@,
                e@,
            ) || e@ == "Failed to deserialize trigger: expected an object"@,
    {
        let request = match self.build_insert_request(trigger, overwrite) {
            Ok(request) => request,
            Err(error) => {
                return Err(error);
            },
        };
        match self.client.invoke_request(request) {
            Ok(value) => {
                if !is_object(&value) {
                    return Err(
                        String::from_str("Failed to deserialize trigger: expected an object"),
                    );
                }
                let t = decode_trigger(&value);
                proof {
                    assert(j_is_obj(value) && trigger_decodes(value, t));
                    assert(trigger_decodes_some_answer(t));
                }
                Ok(t)
            },
            Err(error) => Err(concat_str("Failed to insert trigger ", error.as_str())),
        }
    }

    /// Builds the fetch request for one trigger: GET on the entity,
    /// authenticated, with no payload.
    pub fn build_get_request(&self, trigger_name: &str) -> (r: Result<T::Output, String>)
        ensures
            r matches Ok(req) ==> req_parts(
                T::req_view(&req),
                HttpMethods::GET,
                entity_url_view(self.ctx().host, self.ctx().namespace, "triggers"@, trigger_name@),
                self.ctx().username,
                self.ctx().password,
            ) && T::req_view(&req).body is None,
            r matches Err(e) ==> wrapped("Failed to create request "@, e@),
    {
        let url = entity_url(
            self.context.host(),
            self.context.namespace(),
            "triggers",
            trigger_name,
        );
        let (user, pass) = self.context.auth();
        match self.client.new_request(
            Some(HttpMethods::GET),
            url.as_str(),
            Some((user, pass)),
            None,
        ) {
            Ok(request) => Ok(request),
            Err(error) => Err(concat_str("Failed to create request ", error.as_str())),
        }
    }

    /// Fetches one trigger's record by name.
    pub fn get(&self, trigger_name: &str) -> (r: Result<Trigger, String>)
        ensures
            r matches Ok(t) ==> trigger_decodes_some_answer(t),
            r matches Err(e) ==> wrapped("Failed to create request "@, e@) || wrapped(
                "Failed to get trigger properties "@,
                e@,
            ) || e@ == "Failed to deserialize trigger: expected an object"@,
    {
        let request = match self.build_get_request(trigger_name) {
            Ok(request) => request,
            Err(error) => {
                return Err(error);
            },
        };
        match self.client.invoke_request(request) {
            Ok(value) => {
                if !is_object(&value) {
                    return Err(
                        String::from_str("Failed to deserialize trigger: expected an object"),
                    );
                }
                let t = decode_trigger(&value);
                proof {
                    assert(j_is_obj(value) && trigger_decodes(value, t));
                    assert(trigger_decodes_some_answer(t));
                }
                Ok(t)
            },
            Err(error) => Err(concat_str("Failed to get trigger properties ", error.as_str())),
        }
    }

    /// Builds the deletion request for one trigger: DELETE on the
    /// entity, authenticated, with no payload.
    pub fn build_delete_request(&self, trigger_name: &str) -> (r: Result<T::Output, String>)
        ensures
            r matches Ok(req) ==> req_parts(
                T::req_view(&req),
                HttpMethods::DELETE,
                entity_url_view(self.ctx().host, self.ctx().namespace, "triggers"@, trigger_name@),
                self.ctx().username,
                self.ctx().password,
            ) && T::req_view(&req).body is None,
            r matches Err(e) ==> wrapped("Failed to create request "@, e@),
    {
        let url = entity_url(
            self.context.host(),
            self.context.namespace(),
            "triggers",
            trigger_name,
        );
        let (user, pass) = self.context.auth();
        match self.client.new_request(
            Some(HttpMethods::DELETE),
            url.as_str(),
            Some((user, pass)),
            None,
        ) {
            Ok(request) => Ok(request),
            Err(error) => Err(concat_str("Failed to create request ", error.as_str())),
        }
    }

    /// Deletes a trigger; the server echoes the removed record.
    pub fn delete(&self, trigger_name: &str) -> (r: Result<Trigger, String>)
        ensures
            r matches Ok(t) ==> trigger_decodes_some_answer(t),
            r matches Err(e) ==> wrapped("Failed to create request "@, e@) || wrapped(
                "Failed to delete trigger "@,
                e@,
            ) || e@ == "Failed to deserialize trigger: expected an object"@,
    {
        let request = match self.build_delete_request(trigger_name) {
            Ok(request) => request,
            Err(error) => {
                return Err(error);
            },
        };
        match self.client.invoke_request(request) {
            Ok(value) => {
                if !is_object(&value) {
                    return Err(
                        String::from_str("Failed to deserialize trigger: expected an object"),
                    );
                }
                let t = decode_trigger(&value);
                proof {
                    assert(j_is_obj(value) && trigger_decodes(value, t));
                    assert(trigger_decodes_some_answer(t));
                }
                Ok(t)
            },
            Err(error) => Err(concat_str("Failed to delete trigger ", error.as_str())),
        }
    }

    /// Builds the firing request for one trigger: POST on the entity,
    /// authenticated, carrying the payload.
    pub fn build_fire_request(&self, trigger_name: &str, payload: Value) -> (r: Result<
        T::Output,
        String,
    >)
        ensures
            r matches Ok(req) ==> req_parts(
                T::req_view(&req),
                HttpMethods::POST,
                entity_url_view(self.ctx().host, self.ctx().namespace, "triggers"@, trigger_name@),
                self.ctx().username,
                self.ctx().password,
            ) && T::req_view(&req).body == Some(payload),
            r matches Err(e) ==> wrapped("Failed to create request "@, e@),
    {
        let url = entity_url(
            self.context.host(),
            self.context.namespace(),
            "triggers",
            trigger_name,
        );
        let (user, pass) = self.context.auth();
        match self.client.new_request(
            Some(HttpMethods::POST),
            url.as_str(),
            Some((user, pass)),
            Some(payload),
        ) {
            Ok(request) => Ok(request),
            Err(error) => Err(concat_str("Failed to create request ", error.as_str())),
        }
    }

    /// Fires a trigger with a payload and decodes the server's answer.
    pub fn fire(&self, trigger_name: &str, payload: Value) -> (r: Result<Trigger, String>)
        ensures
            r matches Ok(t) ==> trigger_decodes_some_answer(t),
            r matches Err(e) ==> wrapped("Failed to create request "@, e@) || wrapped(
                "Failed to fire trigger "@,
                e@,
            ) || e@ == "Failed to deserialize trigger: expected an object"@,
    {
        let request = match self.build_fire_request(trigger_name, payload) {
            Ok(request) => request,
            Err(error) => {
                return Err(error);
            },
        };
        match self.client.invoke_request(request) {
            Ok(value) => {
                if !is_object(&value) {
                    return Err(
                        String::from_str("Failed to deserialize trigger: expected an object"),
                    );
                }
                let t = decode_trigger(&value);
                proof {
                    assert(j_is_obj(value) && trigger_decodes(value, t));
                    assert(trigger_decodes_some_answer(t));
                }
                Ok(t)
            },
            Err(error) => Err(concat_str("Failed to fire trigger ", error.as_str())),
        }
    }
}

} // verus!
