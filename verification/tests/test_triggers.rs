use openwhisk_rust::{
    HttpMethods, KeyValue, OpenWhisk, OpenwhiskClient, Service, Trigger, WskProperties,
};
use serde_json::Value;

fn props(host: &str) -> WskProperties {
    WskProperties::new(
        "username:password".to_string(),
        host.to_string(),
        "guest".to_string(),
    )
    .set_bypass_cerificate_check(true)
}

#[derive(Clone)]
struct ListTriggersMock;

impl OpenWhisk for ListTriggersMock {
    type Output = ListTriggersMock;
    fn new_whisk_client(_insecure: Option<bool>) -> Self {
        ListTriggersMock
    }
}

impl Service for ListTriggersMock {
    type Output = String;
    fn new_request(
        &self,
        _method: Option<HttpMethods>,
        url: &str,
        _user_auth: Option<(&str, &str)>,
        _body: Option<Value>,
    ) -> Result<String, String> {
        Ok(url.to_string())
    }
    fn invoke_request(&self, url: String) -> Result<Value, String> {
        assert_eq!(url, "http://127.0.0.1:8080/api/v1/namespaces/guest/triggers");
        serde_json::from_str(r#"[{"name":"trigger","namespace":"guest"}]"#)
            .map_err(|e| e.to_string())
    }
}

#[test]
fn test_list_triggers_native_client() {
    let wsk_properties = props("http://127.0.0.1:8080");
    let client = OpenwhiskClient::<ListTriggersMock>::new(Some(&wsk_properties)).unwrap();
    let expected: Vec<Trigger> = client.triggers().list().unwrap();
    assert_eq!(expected[0].name, "trigger".to_string());
}

#[derive(Clone)]
struct CreateTriggerMock;

impl OpenWhisk for CreateTriggerMock {
    type Output = CreateTriggerMock;
    fn new_whisk_client(_insecure: Option<bool>) -> Self {
        CreateTriggerMock
    }
}

impl Service for CreateTriggerMock {
    type Output = Option<Value>;
    fn new_request(
        &self,
        method: Option<HttpMethods>,
        url: &str,
        _user_auth: Option<(&str, &str)>,
        body: Option<Value>,
    ) -> Result<Option<Value>, String> {
        assert!(matches!(method, Some(HttpMethods::PUT)));
        assert_eq!(
            url,
            "http://127.0.0.1:8080/api/v1/namespaces/guest/triggers/trigger?overwrite=true"
        );
        Ok(body)
    }
    fn invoke_request(&self, body: Option<Value>) -> Result<Value, String> {
        let body = body.expect("trigger insert carries a body");
        // The encoded body carries the annotations and parameters.
        let ann = body.get("annotations").and_then(|v| v.as_array()).unwrap();
        assert_eq!(ann[0].get("key").and_then(|v| v.as_str()), Some("fedd"));
        assert_eq!(ann[0].get("value").and_then(|v| v.as_str()), Some("feed"));
        // Limits never travel over the wire.
        assert!(body.get("limits").is_none());
        Ok(body)
    }
}

#[test]
fn test_create_trigger_native_client() {
    let wsk_properties = props("http://127.0.0.1:8080");
    let client = OpenwhiskClient::<CreateTriggerMock>::new(Some(&wsk_properties)).unwrap();

    let trigger = Trigger {
        name: "trigger".to_string(),
        annotations: vec![KeyValue {
            key: "fedd".to_string(),
            value: serde_json::from_str(r#""feed""#).unwrap(),
        }],
        parameters: vec![KeyValue {
            key: "fedd".to_string(),
            value: serde_json::from_str(r#""feed""#).unwrap(),
        }],
        version: "0.0.1".to_string(),
        ..Default::default()
    };

    let result = client.triggers().insert(&trigger, true).unwrap();

    assert!(result.name.contains("trigger"));
    assert_eq!(result.version, "0.0.1");
}

#[derive(Clone)]
struct DeleteTriggerMock;

impl OpenWhisk for DeleteTriggerMock {
    type Output = DeleteTriggerMock;
    fn new_whisk_client(_insecure: Option<bool>) -> Self {
        DeleteTriggerMock
    }
}

impl Service for DeleteTriggerMock {
    type Output = (String, String);
    fn new_request(
        &self,
        method: Option<HttpMethods>,
        url: &str,
        _user_auth: Option<(&str, &str)>,
        _body: Option<Value>,
    ) -> Result<(String, String), String> {
        let m = match method {
            Some(HttpMethods::GET) => "GET",
            Some(HttpMethods::DELETE) => "DELETE",
            _ => return Err("unexpected method".to_string()),
        };
        Ok((m.to_string(), url.to_string()))
    }
    fn invoke_request(&self, req: (String, String)) -> Result<Value, String> {
        match req.0.as_str() {
            "DELETE" => serde_json::from_str(r#"{"name":"trigger","namespace":"guest"}"#)
                .map_err(|e| e.to_string()),
            _ => serde_json::from_str("[]").map_err(|e| e.to_string()),
        }
    }
}

#[test]
fn test_delete_trigger_native_client() {
    let wsk_properties = props("http://127.0.0.1:8080");
    let client = OpenwhiskClient::<DeleteTriggerMock>::new(Some(&wsk_properties)).unwrap();

    client.triggers().delete("trigger").unwrap();
    let expected: Vec<Trigger> = client.triggers().list().unwrap();

    assert!(expected.is_empty());
}

#[test]
fn test_decode_trigger_defaults_absent_fields() {
    let v: Value = serde_json::from_str(r#"{"name":"t"}"#).unwrap();
    let t = openwhisk_rust::decode_trigger(&v);
    assert_eq!(t.name, "t");
    assert_eq!(t.namespace, "");
    assert!(!t.publish);
    assert_eq!(t.updated, 0);
    assert!(t.annotations.is_empty());
    assert!(t.parameters.is_empty());
    assert_eq!(t.limits, Default::default());
}

#[test]
fn test_fire_posts_to_trigger_url() {
    let wsk_properties = props("http://127.0.0.1:8080");
    let client = OpenwhiskClient::<FireTriggerMock>::new(Some(&wsk_properties)).unwrap();
    let payload: Value = serde_json::from_str(r#"{"k":"v"}"#).unwrap();
    let fired = client.triggers().fire("trigger", payload).unwrap();
    assert_eq!(fired.name, "trigger");
}

#[derive(Clone)]
struct FireTriggerMock;

impl OpenWhisk for FireTriggerMock {
    type Output = FireTriggerMock;
    fn new_whisk_client(_insecure: Option<bool>) -> Self {
        FireTriggerMock
    }
}

impl Service for FireTriggerMock {
    type Output = (String, Option<Value>);
    fn new_request(
        &self,
        method: Option<HttpMethods>,
        url: &str,
        _user_auth: Option<(&str, &str)>,
        body: Option<Value>,
    ) -> Result<(String, Option<Value>), String> {
        assert!(matches!(method, Some(HttpMethods::POST)));
        Ok((url.to_string(), body))
    }
    fn invoke_request(&self, req: (String, Option<Value>)) -> Result<Value, String> {
        assert_eq!(
            req.0,
            "http://127.0.0.1:8080/api/v1/namespaces/guest/triggers/trigger"
        );
        let payload = req.1.expect("fire carries the payload");
        assert_eq!(payload.get("k").and_then(|v| v.as_str()), Some("v"));
        serde_json::from_str(r#"{"name":"trigger","namespace":"guest"}"#)
            .map_err(|e| e.to_string())
    }
}
