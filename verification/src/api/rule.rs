//! The rule resource: a binding from a trigger to an executable unit,
//! with its JSON codec, path qualification and state changes.

use super::common::{collection_url, collection_url_view, entity_url, entity_url_view,
    HttpMethods};
use super::traits::{req_parts, Service};
use super::trigger::{decode_keyvalues, kv_decodes, kv_items, KeyValue};
use crate::client::{Context, ContextView};
use crate::jsonval::{
    as_array_vec, field_bool, field_i64, field_str, field_str_opt, get_bool_field, get_i64_field,
    get_str_field, get_value_field_or_null, is_object, j_arr, j_bool, j_get, j_i64, j_is_obj,
    j_str, null_value, obj_insert, obj_new, obj_to_value, str_to_value, JsonMap,
};
use crate::strutil::{bool_str, bool_view, concat_str, eq_ignore_case, matches_ci, wrapped};
use serde_json::Value;
use vstd::prelude::*;

verus! {

/// A binding from a trigger to an executable unit, as a caller writes it.
#[derive(Debug, Clone, Default)]
pub struct Rule {
    /// The rule's name.
    pub name: String,
    /// The trigger the rule listens to.
    pub trigger: String,
    /// The executable unit the rule invokes.
    pub action: String,
    /// The execution state of the rule.
    pub status: String,
}

/// A rule record as the server returns it.
#[derive(Debug, Clone)]
pub struct RuleResponse {
    /// The namespace the rule lives in.
    pub namespace: String,
    /// The rule's name.
    pub name: String,
    /// The rule's version.
    pub version: String,
    /// Annotations attached to the rule.
    pub annotations: Vec<KeyValue>,
    /// The execution state of the rule.
    pub status: String,
    /// The trigger bound to the rule, as the server sent it.
    pub trigger: Value,
    /// The executable unit bound to the rule, as the server sent it.
    pub action: Value,
    /// Whether the rule is published.
    pub publish: bool,
    /// How often the rule has been updated.
    pub updated: i64,
}

impl Default for RuleResponse {
    /// An empty record: every string empty, every toggle off, both
    /// bindings JSON null.
    fn default() -> (r: Self)
        ensures
            r.namespace@ =~= Seq::<char>::empty(),
            r.name@ =~= Seq::<char>::empty(),
            r.version@ =~= Seq::<char>::empty(),
            r.annotations@.len() == 0,
            r.status@ =~= Seq::<char>::empty(),
            !r.publish,
            r.updated == 0,
    {
        RuleResponse {
            namespace: String::new(),
            name: String::new(),
            version: String::new(),
            annotations: Vec::new(),
            status: String::new(),
            trigger: null_value(),
            action: null_value(),
            publish: false,
            updated: 0,
        }
    }
}

/// Options when listing rules.
#[derive(Debug, Clone, Default)]
pub struct RuleListOptions {
    /// The limit for the number of rules returned.
    pub limit: i64,
    /// How many entries to skip.
    pub skip: i64,
    /// Whether full documents are requested.
    pub docs: bool,
}

/// A name in fully qualified `/namespace/name` form: a name already
/// starting with `/` is kept as it stands, a bare name is prefixed with
/// the namespace.
pub open spec fn qualify(ns: Seq<char>, name: Seq<char>) -> Seq<char> {
    if name.len() > 0 && name[0] == '/' {
        name
    } else {
        "/"@ + ns + "/"@ + name
    }
}

/// Qualifying is idempotent: a name that is already in qualified form is
/// never qualified a second time.
pub proof fn lemma_qualify_idempotent(ns: Seq<char>, name: Seq<char>)
    ensures
        qualify(ns, qualify(ns, name)) == qualify(ns, name),
{
    reveal_strlit("/");
    if name.len() > 0 && name[0] == '/' {
    } else {
        assert(qualify(ns, name)[0] == '/');
    }
}

/// Rewrites a name into fully qualified `/namespace/name` form.
pub fn qualify_name(ns: &str, name: &str) -> (r: String)
    ensures
        r@ == qualify(ns@, name@),
{
    let n: usize = name.unicode_len();
    if n > 0 && name.get_char(0) == '/' {
        name.to_owned()
    } else {
        let mut s = String::from_str("/");
        s.append(ns);
        s.append("/");
        s.append(name);
        proof {
            assert(s@ =~= qualify(ns@, name@));
        }
        s
    }
}

/// How an insert body encodes a rule: the name and state as given, the
/// trigger and unit names rewritten into qualified form.
pub open spec fn rule_body_encoded(ns: Seq<char>, rule: Rule, v: Value) -> bool {
    &&& field_str_opt(v, "name"@) == Some(rule.name@)
    &&& field_str_opt(v, "trigger"@) == Some(qualify(ns, rule.trigger@))
    &&& field_str_opt(v, "action"@) == Some(qualify(ns, rule.action@))
    &&& field_str_opt(v, "status"@) == Some(rule.status@)
}

impl Rule {
    /// Builds the body of an insert request: bare trigger and unit names
    /// are rewritten into `/namespace/name` form, qualified ones kept.
    pub fn body(namespace: &str, rule: &Rule) -> (r: Value)
        ensures
            rule_body_encoded(namespace@, *rule, r),
    {
        let trigger = qualify_name(namespace, rule.trigger.as_str());
        let action = qualify_name(namespace, rule.action.as_str());
        proof {
            crate::jsonval::lemma_wire_keys_distinct();
        }
        let mut m: JsonMap = obj_new();
        m = obj_insert(m, "name", str_to_value(rule.name.as_str()));
        m = obj_insert(m, "trigger", str_to_value(trigger.as_str()));
        m = obj_insert(m, "action", str_to_value(action.as_str()));
        m = obj_insert(m, "status", str_to_value(rule.status.as_str()));
        obj_to_value(m)
    }
}

/// How a rule record decodes, defaulting absent fields; the trigger and
/// unit bindings are kept as the JSON the server sent.
pub open spec fn rule_response_decodes(v: Value, r: RuleResponse) -> bool {
    &&& r.namespace@ == field_str(v, "namespace"@)
    &&& r.name@ == field_str(v, "name"@)
    &&& r.version@ == field_str(v, "version"@)
    &&& r.status@ == field_str(v, "status"@)
    &&& r.publish == field_bool(v, "publish"@, false)
    &&& r.updated == field_i64(v, "updated"@, 0)
    &&& (j_get(v, "trigger"@) matches Some(t) ==> r.trigger == t)
    &&& (j_get(v, "trigger"@) is None ==> j_str(r.trigger) is None && j_arr(r.trigger) is None
        && j_bool(r.trigger) is None && j_i64(r.trigger) is None)
    &&& (j_get(v, "action"@) matches Some(a) ==> r.action == a)
    &&& (j_get(v, "action"@) is None ==> j_str(r.action) is None && j_arr(r.action) is None
        && j_bool(r.action) is None && j_i64(r.action) is None)
    &&& r.annotations@.len() == kv_items(v, "annotations"@).len()
    &&& forall|i: int|
        0 <= i < r.annotations@.len() ==> kv_decodes(
            kv_items(v, "annotations"@)[i],
            #[trigger] r.annotations@[i],
        )
}

/// Decodes a rule record, defaulting absent fields.
pub fn decode_rule_response(v: &Value) -> (r: RuleResponse)
    ensures
        rule_response_decodes(*v, r),
{
    RuleResponse {
        namespace: get_str_field(v, "namespace"),
        name: get_str_field(v, "name"),
        version: get_str_field(v, "version"),
        annotations: decode_keyvalues(v, "annotations"),
        status: get_str_field(v, "status"),
        trigger: get_value_field_or_null(v, "trigger"),
        action: get_value_field_or_null(v, "action"),
        publish: get_bool_field(v, "publish", false),
        updated: get_i64_field(v, "updated", 0),
    }
}

/// How a listing answer decodes: one rule record per element of the
/// returned array, in order.
pub open spec fn rules_listed(v: Value, l: Seq<RuleResponse>) -> bool {
    match j_arr(v) {
        Some(items) => l.len() == items.len() && (forall|i: int|
            0 <= i < l.len() ==> rule_response_decodes(items[i], #[trigger] l[i])),
        None => false,
    }
}

/// Whether some returned JSON value lists as these rule records.
pub open spec fn rules_of_some_answer(l: Seq<RuleResponse>) -> bool {
    exists|v: Value| #[trigger] rules_listed(v, l)
}

/// Whether some returned JSON object decodes to this rule record.
pub open spec fn rule_decodes_some_answer(r: RuleResponse) -> bool {
    exists|v: Value| j_is_obj(v) && #[trigger] rule_response_decodes(v, r)
}

/// The canonical state string posted by `set_state`.
pub open spec fn state_name(active: bool) -> Seq<char> {
    if active {
        "active"@
    } else {
        "inactive"@
    }
}

/// Decodes the array of rule records a listing returns.
pub fn decode_rules(v: &Value) -> (r: Result<Vec<RuleResponse>, String>)
    ensures
        j_arr(*v) matches Some(items) ==> (r matches Ok(l) && l@.len() == items.len() && (forall|
            i: int,
        |
            0 <= i < items.len() ==> rule_response_decodes(items[i], #[trigger] l@[i]))),
        j_arr(*v) is None ==> (r matches Err(e) && e@
            == "Failed to deserialize rules: expected an array"@),
{
    let items: Vec<Value> = match as_array_vec(v) {
        Some(xs) => xs,
        None => {
            return Err(String::from_str("Failed to deserialize rules: expected an array"));
        },
    };
    let ghost gitems = j_arr(*v)->Some_0;
    let mut out: Vec<RuleResponse> = Vec::new();
    let mut i: usize = 0;
    while i < items.len()
        invariant
            0 <= i <= items.len(),
            items@ == gitems,
            out@.len() == i,
            forall|j: int| 0 <= j < i ==> rule_response_decodes(gitems[j], #[trigger] out@[j]),
        decreases items.len() - i,
    {
        out.push(decode_rule_response(&items[i]));
        i = i + 1;
    }
    Ok(out)
}

/// Whether a state string is accepted by `set_state`: exactly `active`
/// or `inactive`, ignoring ASCII case.
pub open spec fn state_valid(s: Seq<char>) -> bool {
    matches_ci(s, "active"@) || matches_ci(s, "inactive"@)
}

/// The rule service: lists, maintains and toggles rules through the
/// transport strategy and context it was built with.
#[derive(Debug, Clone)]
pub struct RuleService<T> {
    client: T,
    context: Context,
}

impl<T> RuleService<T> {
    /// The strategy handle this service delegates to.
    pub closed spec fn client(&self) -> T {
        self.client
    }

    /// The connection context every operation of this service uses.
    pub closed spec fn ctx(&self) -> ContextView {
        self.context@
    }
}

impl<T: Service> RuleService<T> {
    /// Builds the service around a strategy handle and a context.
    pub fn new(client: T, context: Context) -> (r: Self)
        ensures
            r.client() == client,
            r.ctx() == context@,
    {
        RuleService { client, context }
    }

    /// Builds the listing request: GET on the collection, authenticated,
    /// with no payload.
    pub fn build_list_request(&self) -> (r: Result<T::Output, String>)
        ensures
            r matches Ok(req) ==> req_parts(
                T::req_view(&req),
                HttpMethods::GET,
                collection_url_view(self.ctx().host, self.ctx().namespace, "rules"@),
                self.ctx().username,
                self.ctx().password,
            ) && T::req_view(&req).body is None,
            r matches Err(e) ==> wrapped("Failed to create request "@, e@),
    {
        let url = collection_url(self.context.host(), self.context.namespace(), "rules");
        let (user, pass) = self.context.auth();
        match self.client.new_request(
            Some(HttpMethods::GET),
            url.as_str(),
            Some((user, pass)),
            None,
        ) {
            Ok(request) => Ok(request),
            Err(error) => Err(concat_str("Failed to create request ", error.as_str())),
        }
    }

    /// Lists the rules in the namespace.  Whatever array of records came
    /// back, the result is its decoding, index for index.
    pub fn list(&self) -> (r: Result<Vec<RuleResponse>, String>)
        ensures
            r matches Ok(l) ==> rules_of_some_answer(l@),
            r matches Err(e) ==> wrapped("Failed to create request "@, e@) || wrapped(
                "Failed to fetch the list of rules "@,
                e@,
            ) || e@ == "Failed to deserialize rules: expected an array"@,
    {
        let request = match self.build_list_request() {
            Ok(request) => request,
            Err(error) => {
                return Err(error);
            },
        };
        match self.client.invoke_request(request) {
            Ok(value) => match decode_rules(&value) {
                Ok(rules) => {
                    proof {
                        assert(rules_listed(value, rules@));
                        assert(rules_of_some_answer(rules@));
                    }
                    Ok(rules)
                },
                Err(error) => Err(error),
            },
            Err(error) => Err(concat_str("Failed to fetch the list of rules ", error.as_str())),
        }
    }

    /// Builds the insert request for a rule: PUT on the entity with the
    /// overwrite flag, authenticated, carrying the qualified body.
    ///
    /// The body is pinned by [`rule_body_encoded`]: bare trigger and
    /// unit names are rewritten into `/namespace/name` form against this
    /// service's namespace, names already in that form are kept.
    pub fn build_insert_request(&self, rule: &Rule, overwrite: bool) -> (r: Result<
        T::Output,
        String,
    >)
        ensures
            r matches Ok(req) ==> req_parts(
                T::req_view(&req),
                HttpMethods::PUT,
                entity_url_view(self.ctx().host, self.ctx().namespace, "rules"@, rule.name@)
                    + "?overwrite="@ + bool_view(overwrite),
                self.ctx().username,
                self.ctx().password,
            ) && (T::req_view(&req).body matches Some(b) && rule_body_encoded(
                self.ctx().namespace,
                *rule,
                b,
            )),
            r matches Err(e) ==> wrapped("Failed to create request "@, e@),
    {
        let mut url = entity_url(
            self.context.host(),
            self.context.namespace(),
            "rules",
            rule.name.as_str(),
        );
        url.append("?overwrite=");
        url.append(bool_str(overwrite));
        proof {
            assert(url@ =~= entity_url_view(
                self.ctx().host,
                self.ctx().namespace,
                "rules"@,
                rule.name@,
            ) + "?overwrite="@ + bool_view(overwrite));
        }
        let (user, pass) = self.context.auth();
        let body = Rule::body(self.context.namespace(), rule);
        match self.client.new_request(
            Some(HttpMethods::PUT),
            url.as_str(),
            Some((user, pass)),
            Some(body),
        ) {
            Ok(request) => Ok(request),
            Err(error) => Err(concat_str("Failed to create request ", error.as_str())),
        }
    }

    /// Inserts a rule and returns the record the server stored.
    pub fn insert(&self, rule: &Rule, overwrite: bool) -> (r: Result<RuleResponse, String>)
        ensures
            r matches Ok(resp) ==> rule_decodes_some_answer(resp),
            r matches Err(e) ==> wrapped("Failed to create request "@, e@) || wrapped(
                "Failed to create rule "@,
                e@,
            ) || e@ == "Failed to deserialize rule: expected an object"@,
    {
        let request = match self.build_insert_request(rule, overwrite) {
            Ok(request) => request,
            Err(error) => {
                return Err(error);
            },
        };
        match self.client.invoke_request(request) {
            Ok(value) => {
                if !is_object(&value) {
                    return Err(
                        String::from_str("Failed to deserialize rule: expected an object"),
                    );
                }
                let resp = decode_rule_response(&value);
                proof {
                    assert(j_is_obj(value) && rule_response_decodes(value, resp));
                    assert(rule_decodes_some_answer(resp));
                }
                Ok(resp)
            },
            Err(error) => Err(concat_str("Failed to create rule ", error.as_str())),
        }
    }

    /// Builds the fetch request for one rule: GET on the entity,
    /// authenticated, with no payload.
    pub fn build_get_request(&self, rule_name: &str) -> (r: Result<T::Output, String>)
        ensures
            r matches Ok(req) ==> req_parts(
                T::req_view(&req),
                HttpMethods::GET,
                entity_url_view(self.ctx().host, self.ctx().namespace, "rules"@, rule_name@),
                self.ctx().username,
                self.ctx().password,
            ) && T::req_view(&req).body is None,
            r matches Err(e) ==> wrapped("Failed to create request "@, e@),
    {
        let url = entity_url(self.context.host(), self.context.namespace(), "rules", rule_name);
        let (user, pass) = self.context.auth();
        match self.client.new_request(
            Some(HttpMethods::GET),
            url.as_str(),
            Some((user, pass)),
            None,
        ) {
            Ok(request) => Ok(request),
            Err(error) => Err(concat_str("Failed to create request ", error.as_str())),
        }
    }

    /// Fetches one rule's record by name.
    pub fn get(&self, rule_name: &str) -> (r: Result<RuleResponse, String>)
        ensures
            r matches Ok(resp) ==> rule_decodes_some_answer(resp),
            r matches Err(e) ==> wrapped("Failed to create request "@, e@) || wrapped(
                "Failed to get rule properties "@,
                e@,
            ) || e@ == "Failed to deserialize rule: expected an object"@,
    {
        let request = match self.build_get_request(rule_name) {
            Ok(request) => request,
            Err(error) => {
                return Err(error);
            },
        };
        match self.client.invoke_request(request) {
            Ok(value) => {
                if !is_object(&value) {
                    return Err(
                        String::from_str("Failed to deserialize rule: expected an object"),
                    );
                }
                let resp = decode_rule_response(&value);
                proof {
                    assert(j_is_obj(value) && rule_response_decodes(value, resp));
                    assert(rule_decodes_some_answer(resp));
                }
                Ok(resp)
            },
            Err(error) => Err(concat_str("Failed to get rule properties ", error.as_str())),
        }
    }

    /// Builds the deletion request for one rule: DELETE on the entity,
    /// authenticated, with no payload.
    pub fn build_delete_request(&self, rule_name: &str) -> (r: Result<T::Output, String>)
        ensures
            r matches Ok(req) ==> req_parts(
                T::req_view(&req),
                HttpMethods::DELETE,
                entity_url_view(self.ctx().host, self.ctx().namespace, "rules"@, rule_name@),
                self.ctx().username,
                self.ctx().password,
            ) && T::req_view(&req).body is None,
            r matches Err(e) ==> wrapped("Failed to create request "@, e@),
    {
        let url = entity_url(self.context.host(), self.context.namespace(), "rules", rule_name);
        let (user, pass) = self.context.auth();
        match self.client.new_request(
            Some(HttpMethods::DELETE),
            url.as_str(),
            Some((user, pass)),
            None,
        ) {
            Ok(request) => Ok(request),
            Err(error) => Err(concat_str("Failed to create request ", error.as_str())),
        }
    }

    /// Deletes a rule; the server echoes the removed record.
    pub fn delete(&self, rule_name: &str) -> (r: Result<RuleResponse, String>)
        ensures
            r matches Ok(resp) ==> rule_decodes_some_answer(resp),
            r matches Err(e) ==> wrapped("Failed to create request "@, e@) || wrapped(
                "Failed to get rule properties "@,
                e@,
            ) || e@ == "Failed to deserialize rule: expected an object"@,
    {
        let request = match self.build_delete_request(rule_name) {
            Ok(request) => request,
            Err(error) => {
                return Err(error);
            },
        };
        match self.client.invoke_request(request) {
            Ok(value) => {
                if !is_object(&value) {
                    return Err(
                        String::from_str("Failed to deserialize rule: expected an object"),
                    );
                }
                let resp = decode_rule_response(&value);
                proof {
                    assert(j_is_obj(value) && rule_response_decodes(value, resp));
                    assert(rule_decodes_some_answer(resp));
                }
                Ok(resp)
            },
            Err(error) => Err(concat_str("Failed to get rule properties ", error.as_str())),
        }
    }

    /// Builds the state-change request for one rule: POST on the entity,
    /// authenticated, carrying a minimal body holding only the status
    /// field with the canonical state string.
    pub fn build_set_state_request(&self, rule_name: &str, active: bool) -> (r: Result<
        T::Output,
        String,
    >)
        ensures
            r matches Ok(req) ==> req_parts(
                T::req_view(&req),
                HttpMethods::POST,
                entity_url_view(self.ctx().host, self.ctx().namespace, "rules"@, rule_name@),
                self.ctx().username,
                self.ctx().password,
            ) && (T::req_view(&req).body matches Some(b) && field_str_opt(b, "status"@) == Some(
                state_name(active),
            ) && (forall|k: Seq<char>| k != "status"@ ==> #[trigger] j_get(b, k) is None)),
            r matches Err(e) ==> wrapped("Failed to create request "@, e@),
    {
        let url = entity_url(self.context.host(), self.context.namespace(), "rules", rule_name);
        let (user, pass) = self.context.auth();
        let canonical: &str = if active {
            "active"
        } else {
            "inactive"
        };
        let mut m: JsonMap = obj_new();
        m = obj_insert(m, "status", str_to_value(canonical));
        let body = obj_to_value(m);
        match self.client.new_request(
            Some(HttpMethods::POST),
            url.as_str(),
            Some((user, pass)),
            Some(body),
        ) {
            Ok(request) => Ok(request),
            Err(error) => Err(concat_str("Failed to create request ", error.as_str())),
        }
    }

    /// Sets the execution state of a rule.
    ///
    /// Any state other than case-insensitive `active` or `inactive` is
    /// rejected — with exactly the validation error, and only then —
    /// before a request is even built; a valid state is posted as a
    /// body holding only the status field.
    pub fn set_state(&self, rule_name: &str, state: &str) -> (r: Result<String, String>)
        ensures
            !state_valid(state@) ==> (r matches Err(e) && e@ == "Invalid setstate options"@),
            (r matches Err(e) && e@ == "Invalid setstate options"@) ==> !state_valid(state@),
            r matches Ok(m) ==> state_valid(state@) && m@ == "The rule is updated"@,
            r matches Err(e) ==> e@ == "Invalid setstate options"@ || wrapped(
                "Failed to create request "@,
                e@,
            ) || wrapped("Failed to set state for rule "@, e@),
    {
        let active = eq_ignore_case(state, "active");
        let inactive = eq_ignore_case(state, "inactive");
        if !active && !inactive {
            return Err(String::from_str("Invalid setstate options"));
        }
        proof {
            reveal_strlit("Invalid setstate options");
            reveal_strlit("Failed to create request ");
            reveal_strlit("Failed to set state for rule ");
            assert("Invalid setstate options"@.len() == 24);
            assert("Failed to create request "@.len() == 25);
            assert("Failed to set state for rule "@.len() == 29);
        }
        let request = match self.build_set_state_request(rule_name, active) {
            Ok(request) => request,
            Err(error) => {
                proof {
                    let t = choose|t: Seq<char>| error@ == "Failed to create request "@ + t;
                    assert(error@.len() == 25 + t.len());
                    assert(error@ != "Invalid setstate options"@);
                }
                return Err(error);
            },
        };
        match self.client.invoke_request(request) {
            Ok(_) => Ok(String::from_str("The rule is updated")),
            Err(error) => {
                let msg = concat_str("Failed to set state for rule ", error.as_str());
                proof {
                    assert(msg@.len() == 29 + error@.len());
                    assert(msg@ != "Invalid setstate options"@);
                }
                Err(msg)
            },
        }
    }
}

} // verus!
