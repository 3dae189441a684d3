use openwhisk_rust::{
    HttpMethods, OpenWhisk, OpenwhiskClient, Rule, RuleResponse, Service, WskProperties,
};
use serde_json::Value;

fn props(host: &str) -> WskProperties {
    WskProperties::new(
        "username:password".to_string(),
        host.to_string(),
        "guest".to_string(),
    )
    .set_bypass_cerificate_check(true)
}

#[derive(Clone)]
struct ListRulesMock;

impl OpenWhisk for ListRulesMock {
    type Output = ListRulesMock;
    fn new_whisk_client(_insecure: Option<bool>) -> Self {
        ListRulesMock
    }
}

impl Service for ListRulesMock {
    type Output = String;
    fn new_request(
        &self,
        _method: Option<HttpMethods>,
        url: &str,
        _user_auth: Option<(&str, &str)>,
        _body: Option<Value>,
    ) -> Result<String, String> {
        Ok(url.to_string())
    }
    fn invoke_request(&self, url: String) -> Result<Value, String> {
        assert_eq!(url, "http://127.0.0.1:8080/api/v1/namespaces/guest/rules");
        serde_json::from_str(r#"[{"name":"rule1","namespace":"guest"}]"#).map_err(|e| e.to_string())
    }
}

#[test]
fn test_list_rules_native_client() {
    let wsk_properties = props("http://127.0.0.1:8080");
    let client = OpenwhiskClient::<ListRulesMock>::new(Some(&wsk_properties)).unwrap();
    let rules = client.rules().list().unwrap();
    assert_eq!(rules.len(), 1);
    assert_eq!(rules[0].name, "rule1");
    assert_eq!(rules[0].namespace, "guest");
    assert_eq!(rules[0].version, "");
}

#[derive(Clone)]
struct CreateRuleMock;

impl OpenWhisk for CreateRuleMock {
    type Output = CreateRuleMock;
    fn new_whisk_client(_insecure: Option<bool>) -> Self {
        CreateRuleMock
    }
}

impl Service for CreateRuleMock {
    type Output = Option<Value>;
    fn new_request(
        &self,
        method: Option<HttpMethods>,
        url: &str,
        _user_auth: Option<(&str, &str)>,
        body: Option<Value>,
    ) -> Result<Option<Value>, String> {
        assert!(matches!(method, Some(HttpMethods::PUT)));
        assert_eq!(
            url,
            "http://127.0.0.1:8080/api/v1/namespaces/guest/rules/rule1?overwrite=true"
        );
        Ok(body)
    }
    fn invoke_request(&self, body: Option<Value>) -> Result<Value, String> {
        let body = body.expect("rule insert carries a body");
        // The outgoing body must carry fully qualified references.
        assert_eq!(
            body.get("trigger").and_then(|v| v.as_str()),
            Some("/guest/trigger1")
        );
        assert_eq!(
            body.get("action").and_then(|v| v.as_str()),
            Some("/guest/cartype")
        );
        serde_json::from_str(r#"{"name":"rule1","namespace":"guest"}"#).map_err(|e| e.to_string())
    }
}

#[test]
fn test_create_rule_native_clients() {
    let wsk_properties = props("http://127.0.0.1:8080");
    let client = OpenwhiskClient::<CreateRuleMock>::new(Some(&wsk_properties)).unwrap();

    let rule = Rule {
        name: "rule1".to_string(),
        trigger: "trigger1".to_string(),
        action: "cartype".to_string(),
        status: "".to_string(),
    };
    let expected: RuleResponse = client.rules().insert(&rule, true).unwrap();

    assert_eq!(expected.namespace, "guest".to_string());
}

#[derive(Clone)]
struct GetRuleMock;

impl OpenWhisk for GetRuleMock {
    type Output = GetRuleMock;
    fn new_whisk_client(_insecure: Option<bool>) -> Self {
        GetRuleMock
    }
}

impl Service for GetRuleMock {
    type Output = String;
    fn new_request(
        &self,
        _method: Option<HttpMethods>,
        url: &str,
        _user_auth: Option<(&str, &str)>,
        _body: Option<Value>,
    ) -> Result<String, String> {
        Ok(url.to_string())
    }
    fn invoke_request(&self, url: String) -> Result<Value, String> {
        assert_eq!(url, "http://127.0.0.1:8080/api/v1/namespaces/guest/rules/rule1");
        serde_json::from_str(r#"{"name":"rule1","namespace":"guest","version":"0.0.2"}"#)
            .map_err(|e| e.to_string())
    }
}

#[test]
fn test_get_rule_property_native_client() {
    let wsk_properties = props("http://127.0.0.1:8080");
    let client = OpenwhiskClient::<GetRuleMock>::new(Some(&wsk_properties)).unwrap();
    let expected: RuleResponse = client.rules().get("rule1").unwrap();
    assert_ne!(expected.version, "1".to_string());
}

/// A transport that must never be reached: an invalid state string is
/// rejected before any request is built or sent.
#[derive(Clone)]
struct UnreachableMock;

impl OpenWhisk for UnreachableMock {
    type Output = UnreachableMock;
    fn new_whisk_client(_insecure: Option<bool>) -> Self {
        UnreachableMock
    }
}

impl Service for UnreachableMock {
    type Output = String;
    fn new_request(
        &self,
        _method: Option<HttpMethods>,
        _url: &str,
        _user_auth: Option<(&str, &str)>,
        _body: Option<Value>,
    ) -> Result<String, String> {
        panic!("set_state must not build a request for an invalid state");
    }
    fn invoke_request(&self, _req: String) -> Result<Value, String> {
        panic!("set_state must not make a network call for an invalid state");
    }
}

#[test]
fn test_set_state_rejects_invalid_state_without_network() {
    let wsk_properties = props("http://127.0.0.1:8080");
    let client = OpenwhiskClient::<UnreachableMock>::new(Some(&wsk_properties)).unwrap();
    let err = client.rules().set_state("rule1", "paused").unwrap_err();
    assert_eq!(err, "Invalid setstate options");
    let err = client.rules().set_state("rule1", "activated").unwrap_err();
    assert_eq!(err, "Invalid setstate options");
}

#[derive(Clone)]
struct SetStateMock;

impl OpenWhisk for SetStateMock {
    type Output = SetStateMock;
    fn new_whisk_client(_insecure: Option<bool>) -> Self {
        SetStateMock
    }
}

impl Service for SetStateMock {
    type Output = Option<Value>;
    fn new_request(
        &self,
        method: Option<HttpMethods>,
        url: &str,
        _user_auth: Option<(&str, &str)>,
        body: Option<Value>,
    ) -> Result<Option<Value>, String> {
        assert!(matches!(method, Some(HttpMethods::POST)));
        assert_eq!(url, "http://127.0.0.1:8080/api/v1/namespaces/guest/rules/rule1");
        Ok(body)
    }
    fn invoke_request(&self, body: Option<Value>) -> Result<Value, String> {
        let body = body.expect("set_state carries a body");
        // The body holds only the status field, lowercased.
        assert_eq!(body.get("status").and_then(|v| v.as_str()), Some("active"));
        assert_eq!(body.as_object().map(|m| m.len()), Some(1));
        serde_json::from_str(r#"{"name":"rule1","status":"active"}"#).map_err(|e| e.to_string())
    }
}

#[test]
fn test_set_state_accepts_case_insensitive_state() {
    let wsk_properties = props("http://127.0.0.1:8080");
    let client = OpenwhiskClient::<SetStateMock>::new(Some(&wsk_properties)).unwrap();
    let msg = client.rules().set_state("rule1", "AcTiVe").unwrap();
    assert_eq!(msg, "The rule is updated");
}

#[test]
fn test_qualify_name_adds_and_keeps_prefix() {
    assert_eq!(openwhisk_rust::qualify_name("guest", "trigger1"), "/guest/trigger1");
    assert_eq!(
        openwhisk_rust::qualify_name("guest", "/guest/trigger1"),
        "/guest/trigger1"
    );
    // Qualifying twice never doubles the prefix.
    let once = openwhisk_rust::qualify_name("guest", "cartype");
    let twice = openwhisk_rust::qualify_name("guest", &once);
    assert_eq!(once, twice);
}

#[test]
fn test_rule_body_qualifies_bare_names_only() {
    let rule = Rule {
        name: "rule1".to_string(),
        trigger: "/other/trigger1".to_string(),
        action: "cartype".to_string(),
        status: "active".to_string(),
    };
    let body = Rule::body("guest", &rule);
    assert_eq!(body.get("trigger").and_then(|v| v.as_str()), Some("/other/trigger1"));
    assert_eq!(body.get("action").and_then(|v| v.as_str()), Some("/guest/cartype"));
    assert_eq!(body.get("name").and_then(|v| v.as_str()), Some("rule1"));
    assert_eq!(body.get("status").and_then(|v| v.as_str()), Some("active"));
}
