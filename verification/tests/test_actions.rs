use openwhisk_rust::{
    Action, ActionList, Exec, HttpMethods, KeyValue, OpenWhisk, OpenwhiskClient, Service,
    WskProperties,
};
use serde_json::Value;

fn props(host: &str) -> WskProperties {
    WskProperties::new(
        "username:password".to_string(),
        host.to_string(),
        "guest".to_string(),
    )
    .set_bypass_cerificate_check(true)
}

fn one_action_record() -> &'static str {
    r#"{"namespace":"guest","name":"cars","version":"0.0.1",
        "limits":{"timeout":60000,"memory":256,"logsize":10,"concurrency":1},
        "exec":{"kind":"rust:1.34","code":"","image":"openwhisk/action-rust-v1.34",
                "init":"","main":"","components":[],"binary":true},
        "error":"","publish":true,"updated":0,
        "annotations":[{"key":"feed","value":{}}]}"#
}

#[derive(Clone)]
struct ListActionsMock;

impl OpenWhisk for ListActionsMock {
    type Output = ListActionsMock;
    fn new_whisk_client(_insecure: Option<bool>) -> Self {
        ListActionsMock
    }
}

impl Service for ListActionsMock {
    type Output = String;
    fn new_request(
        &self,
        method: Option<HttpMethods>,
        url: &str,
        user_auth: Option<(&str, &str)>,
        _body: Option<Value>,
    ) -> Result<String, String> {
        assert!(matches!(method, Some(HttpMethods::GET)));
        assert_eq!(user_auth, Some(("username", "password")));
        Ok(url.to_string())
    }
    fn invoke_request(&self, url: String) -> Result<Value, String> {
        assert_eq!(url, "http://127.0.0.1:8080/api/v1/namespaces/guest/actions");
        serde_json::from_str(&format!("[{}]", one_action_record())).map_err(|e| e.to_string())
    }
}

#[test]
fn test_list_actions_native_client() {
    let wsk_properties = props("http://127.0.0.1:8080");
    let client = OpenwhiskClient::<ListActionsMock>::new(Some(&wsk_properties)).unwrap();
    let result = client.actions().list().unwrap();
    let actual = vec![ActionList {
        name: "cars".to_string(),
        namespace: "guest".to_string(),
    }];
    assert_eq!(actual, result);
}

#[derive(Clone)]
struct GetActionMock;

impl OpenWhisk for GetActionMock {
    type Output = GetActionMock;
    fn new_whisk_client(_insecure: Option<bool>) -> Self {
        GetActionMock
    }
}

impl Service for GetActionMock {
    type Output = String;
    fn new_request(
        &self,
        _method: Option<HttpMethods>,
        url: &str,
        _user_auth: Option<(&str, &str)>,
        _body: Option<Value>,
    ) -> Result<String, String> {
        Ok(url.to_string())
    }
    fn invoke_request(&self, url: String) -> Result<Value, String> {
        assert_eq!(
            url,
            "http://127.0.0.1:8080/api/v1/namespaces/guest/actions/cars?code=false"
        );
        serde_json::from_str(one_action_record()).map_err(|e| e.to_string())
    }
}

#[test]
fn test_get_action_property_native_client() {
    let wsk_properties = props("http://127.0.0.1:8080");
    let client = OpenwhiskClient::<GetActionMock>::new(Some(&wsk_properties)).unwrap();
    let action = client.actions().get("cars", false).unwrap();
    assert!(action.name.contains("cars"));
}

#[derive(Clone)]
struct DeleteActionMock;

impl OpenWhisk for DeleteActionMock {
    type Output = DeleteActionMock;
    fn new_whisk_client(_insecure: Option<bool>) -> Self {
        DeleteActionMock
    }
}

impl Service for DeleteActionMock {
    type Output = (String, String);
    fn new_request(
        &self,
        method: Option<HttpMethods>,
        url: &str,
        _user_auth: Option<(&str, &str)>,
        _body: Option<Value>,
    ) -> Result<(String, String), String> {
        let m = match method {
            Some(HttpMethods::GET) => "GET",
            Some(HttpMethods::DELETE) => "DELETE",
            _ => return Err("unexpected method".to_string()),
        };
        Ok((m.to_string(), url.to_string()))
    }
    fn invoke_request(&self, req: (String, String)) -> Result<Value, String> {
        match req.0.as_str() {
            "DELETE" => serde_json::from_str(one_action_record()).map_err(|e| e.to_string()),
            _ => serde_json::from_str("[]").map_err(|e| e.to_string()),
        }
    }
}

#[test]
fn test_delete_action_native_client() {
    let wsk_properties = props("http://127.0.0.1:8080");
    let client = OpenwhiskClient::<DeleteActionMock>::new(Some(&wsk_properties)).unwrap();
    client.actions().delete("cars").unwrap();
    let actions = client.actions().list().unwrap();
    assert!(actions.is_empty());
}

#[derive(Clone)]
struct CreateActionMock;

impl OpenWhisk for CreateActionMock {
    type Output = CreateActionMock;
    fn new_whisk_client(_insecure: Option<bool>) -> Self {
        CreateActionMock
    }
}

impl Service for CreateActionMock {
    type Output = (String, Option<Value>);
    fn new_request(
        &self,
        method: Option<HttpMethods>,
        url: &str,
        _user_auth: Option<(&str, &str)>,
        body: Option<Value>,
    ) -> Result<(String, Option<Value>), String> {
        match method {
            Some(HttpMethods::PUT) | Some(HttpMethods::GET) => Ok((url.to_string(), body)),
            _ => Err("unexpected method".to_string()),
        }
    }
    fn invoke_request(&self, req: (String, Option<Value>)) -> Result<Value, String> {
        if req.0.ends_with("?overwrite=true") {
            // The insert: echo the body the service encoded.
            let body = req.1.expect("insert carries a body");
            assert_eq!(body.get("name").and_then(|v| v.as_str()), Some("cars"));
            assert_eq!(
                body.get("exec").and_then(|e| e.get("kind")).and_then(|v| v.as_str()),
                Some("rust:1.34")
            );
            Ok(body)
        } else {
            serde_json::from_str(&format!("[{}]", one_action_record())).map_err(|e| e.to_string())
        }
    }
}

#[test]
fn test_create_action() {
    let bas64_data = base64::encode("code");

    let action = Action {
        namespace: "guest".to_string(),
        name: "cars".to_string(),
        version: "0.0.1".to_string(),
        limits: Default::default(),
        exec_props: Exec {
            kind: "rust:1.34".to_string(),
            code: bas64_data,
            image: "openwhisk/action-rust-v1.34".to_string(),
            init: "".to_string(),
            main: "".to_string(),
            components: vec![],
            binary: true,
        },
        error: "".to_string(),
        publish: true,
        updated: 0,
        annotations: vec![KeyValue {
            key: "feed".to_string(),
            value: serde_json::from_str("{}").unwrap(),
        }],
    };

    let wsk_properties = props("http://127.0.0.1:8080");
    let client = OpenwhiskClient::<CreateActionMock>::new(Some(&wsk_properties)).unwrap();

    client.actions().insert(&action, true).unwrap();

    let actions = client.actions().list().unwrap();
    assert!(actions.iter().any(|a| a.name == "cars"));
}

#[test]
fn test_list_projection_keeps_order_and_pairs() {
    let v: Value = serde_json::from_str(
        r#"[{"name":"a1","namespace":"n1"},{"name":"a2","namespace":"n2"},
            {"name":"a1","namespace":"n2"}]"#,
    )
    .unwrap();
    let actions = openwhisk_rust::decode_actions(&v).unwrap();
    let summaries = openwhisk_rust::project_action_list(&actions);
    let pairs: Vec<(String, String)> = summaries
        .iter()
        .map(|s| (s.name.clone(), s.namespace.clone()))
        .collect();
    assert_eq!(
        pairs,
        vec![
            ("a1".to_string(), "n1".to_string()),
            ("a2".to_string(), "n2".to_string()),
            ("a1".to_string(), "n2".to_string()),
        ]
    );
}

#[test]
fn test_decode_actions_rejects_non_array() {
    let v: Value = serde_json::from_str(r#"{"name":"cars"}"#).unwrap();
    let err = openwhisk_rust::decode_actions(&v).unwrap_err();
    assert_eq!(err, "Failed to deserialize actions: expected an array");
}

#[test]
fn test_decode_action_defaults_absent_fields() {
    let v: Value = serde_json::from_str(r#"{"name":"cars"}"#).unwrap();
    let a = openwhisk_rust::decode_action(&v);
    assert_eq!(a.name, "cars");
    assert_eq!(a.namespace, "");
    assert_eq!(a.version, "");
    assert_eq!(a.limits, Default::default());
    assert_eq!(a.exec_props.kind, "");
    assert!(!a.exec_props.binary);
    assert!(!a.publish);
    assert_eq!(a.updated, 0);
    assert!(a.annotations.is_empty());
}

#[derive(Clone, Default)]
struct StoringMock {
    stored: std::rc::Rc<std::cell::RefCell<Option<Value>>>,
}

impl Service for StoringMock {
    type Output = (String, Option<Value>);
    fn new_request(
        &self,
        _method: Option<HttpMethods>,
        url: &str,
        _user_auth: Option<(&str, &str)>,
        body: Option<Value>,
    ) -> Result<(String, Option<Value>), String> {
        Ok((url.to_string(), body))
    }
    fn invoke_request(&self, req: (String, Option<Value>)) -> Result<Value, String> {
        if let Some(body) = req.1 {
            *self.stored.borrow_mut() = Some(body.clone());
            Ok(body)
        } else {
            self.stored.borrow().clone().ok_or_else(|| "nothing stored".to_string())
        }
    }
}

#[test]
fn test_insert_then_get_preserves_identity() {
    // Insert followed by a get of the same name, with a server that
    // stores what it was sent, keeps the identity fields.
    let store = StoringMock::default();
    let context = openwhisk_rust::Context::new(
        &openwhisk_rust::EnvOverrides::default(),
        Some(&props("http://127.0.0.1:8080")),
    )
    .unwrap();
    let service = openwhisk_rust::ActionService::new(store.clone(), context);

    let action = Action {
        namespace: "guest".to_string(),
        name: "cars".to_string(),
        ..Default::default()
    };
    let inserted = service.insert(&action, true).unwrap();
    let fetched = service.get("cars", false).unwrap();
    assert_eq!(inserted.name, "cars");
    assert_eq!(fetched.name, "cars");
    assert_eq!(fetched.namespace, "guest");
}

/// A backend that answers every request with a 404 status carrying a
/// structured error body, normalized the way real backends normalize.
#[derive(Clone)]
struct NotFoundMock;

impl OpenWhisk for NotFoundMock {
    type Output = NotFoundMock;
    fn new_whisk_client(_insecure: Option<bool>) -> Self {
        NotFoundMock
    }
}

impl Service for NotFoundMock {
    type Output = String;
    fn new_request(
        &self,
        _method: Option<HttpMethods>,
        url: &str,
        _user_auth: Option<(&str, &str)>,
        _body: Option<Value>,
    ) -> Result<String, String> {
        Ok(url.to_string())
    }
    fn invoke_request(&self, _url: String) -> Result<Value, String> {
        openwhisk_rust::normalize_response(404, r#"{"code":"X","error":"not found"}"#)
    }
}

#[test]
fn test_get_missing_action_is_status_error_with_code_and_message() {
    let wsk_properties = props("http://127.0.0.1:8080");
    let client = OpenwhiskClient::<NotFoundMock>::new(Some(&wsk_properties)).unwrap();
    let err = client.actions().get("missing", false).unwrap_err();
    // A status error carrying both parts of the structured body, not a
    // decode error.
    assert!(err.contains("404"));
    assert!(err.contains("X"));
    assert!(err.contains("not found"));
    assert!(err.contains("Status"));
    assert!(!err.contains("Failed to decode response body"));
}

#[derive(Clone)]
struct InvokeActionMock;

impl OpenWhisk for InvokeActionMock {
    type Output = InvokeActionMock;
    fn new_whisk_client(_insecure: Option<bool>) -> Self {
        InvokeActionMock
    }
}

impl Service for InvokeActionMock {
    type Output = (String, Option<Value>);
    fn new_request(
        &self,
        method: Option<HttpMethods>,
        url: &str,
        _user_auth: Option<(&str, &str)>,
        body: Option<Value>,
    ) -> Result<(String, Option<Value>), String> {
        assert!(matches!(method, Some(HttpMethods::POST)));
        Ok((url.to_string(), body))
    }
    fn invoke_request(&self, req: (String, Option<Value>)) -> Result<Value, String> {
        assert_eq!(
            req.0,
            "http://127.0.0.1:8080/api/v1/namespaces/guest/actions/cars?blocking=true&result=false"
        );
        let payload = req.1.expect("invoke carries the payload");
        assert_eq!(payload.get("car").and_then(|v| v.as_str()), Some("bmw"));
        serde_json::from_str(r#"{"response":{"result":{"ok":true}}}"#).map_err(|e| e.to_string())
    }
}

#[test]
fn test_invoke_action_returns_server_answer_unchanged() {
    let wsk_properties = props("http://127.0.0.1:8080");
    let client = OpenwhiskClient::<InvokeActionMock>::new(Some(&wsk_properties)).unwrap();
    let payload: Value = serde_json::from_str(r#"{"car":"bmw"}"#).unwrap();
    let answer = client.actions().invoke("cars", payload, true, false).unwrap();
    let expected: Value = serde_json::from_str(r#"{"response":{"result":{"ok":true}}}"#).unwrap();
    assert_eq!(answer, expected);
}

/// A backend whose execution always fails at the transport level.
#[derive(Clone)]
struct FailingMock;

impl OpenWhisk for FailingMock {
    type Output = FailingMock;
    fn new_whisk_client(_insecure: Option<bool>) -> Self {
        FailingMock
    }
}

impl Service for FailingMock {
    type Output = String;
    fn new_request(
        &self,
        _method: Option<HttpMethods>,
        url: &str,
        _user_auth: Option<(&str, &str)>,
        _body: Option<Value>,
    ) -> Result<String, String> {
        Ok(url.to_string())
    }
    fn invoke_request(&self, _url: String) -> Result<Value, String> {
        Err("connection refused".to_string())
    }
}

#[test]
fn test_transport_failure_is_wrapped_with_context() {
    let wsk_properties = props("http://127.0.0.1:8080");
    let client = OpenwhiskClient::<FailingMock>::new(Some(&wsk_properties)).unwrap();
    let err = client.actions().list().unwrap_err();
    assert_eq!(err, "Failed to fetch the list of actions connection refused");
}

/// A backend that answers a listing with something other than an array.
#[derive(Clone)]
struct WrongShapeMock;

impl OpenWhisk for WrongShapeMock {
    type Output = WrongShapeMock;
    fn new_whisk_client(_insecure: Option<bool>) -> Self {
        WrongShapeMock
    }
}

impl Service for WrongShapeMock {
    type Output = String;
    fn new_request(
        &self,
        _method: Option<HttpMethods>,
        url: &str,
        _user_auth: Option<(&str, &str)>,
        _body: Option<Value>,
    ) -> Result<String, String> {
        Ok(url.to_string())
    }
    fn invoke_request(&self, _url: String) -> Result<Value, String> {
        serde_json::from_str(r#"{"unexpected":"shape"}"#).map_err(|e| e.to_string())
    }
}

#[test]
fn test_unexpected_shape_is_a_decode_error() {
    let wsk_properties = props("http://127.0.0.1:8080");
    let client = OpenwhiskClient::<WrongShapeMock>::new(Some(&wsk_properties)).unwrap();
    let err = client.actions().list().unwrap_err();
    assert_eq!(err, "Failed to deserialize actions: expected an array");
}

/// A backend whose 200 answer is valid JSON of the wrong shape.
#[derive(Clone)]
struct BareStringMock;

impl OpenWhisk for BareStringMock {
    type Output = BareStringMock;
    fn new_whisk_client(_insecure: Option<bool>) -> Self {
        BareStringMock
    }
}

impl Service for BareStringMock {
    type Output = String;
    fn new_request(
        &self,
        _method: Option<HttpMethods>,
        url: &str,
        _user_auth: Option<(&str, &str)>,
        _body: Option<Value>,
    ) -> Result<String, String> {
        Ok(url.to_string())
    }
    fn invoke_request(&self, _url: String) -> Result<Value, String> {
        serde_json::from_str(r#""just a string""#).map_err(|e| e.to_string())
    }
}

#[test]
fn test_wrong_shape_record_is_a_decode_error() {
    let wsk_properties = props("http://127.0.0.1:8080");
    let client = OpenwhiskClient::<BareStringMock>::new(Some(&wsk_properties)).unwrap();
    let err = client.actions().get("cars", false).unwrap_err();
    assert_eq!(err, "Failed to deserialize action: expected an object");
}

#[test]
fn test_build_list_request_pins_the_url() {
    let wsk_properties = props("http://127.0.0.1:8080");
    let client = OpenwhiskClient::<ListActionsMock>::new(Some(&wsk_properties)).unwrap();
    // The mock's request handle is the URL it was handed.
    let handle = client.actions().build_list_request().unwrap();
    assert_eq!(handle, "http://127.0.0.1:8080/api/v1/namespaces/guest/actions");
}
