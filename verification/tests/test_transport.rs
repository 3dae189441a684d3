use openwhisk_rust::{Context, EnvOverrides, HttpMethods, WasmClient, WskProperties};
use serde_json::Value;

#[test]
fn test_normalize_success_returns_decoded_body() {
    let r = openwhisk_rust::normalize_response(200, r#"{"name":"cars"}"#).unwrap();
    let expected: Value = serde_json::from_str(r#"{"name":"cars"}"#).unwrap();
    assert_eq!(r, expected);
}

#[test]
fn test_normalize_success_with_bad_json_is_decode_error() {
    let err = openwhisk_rust::normalize_response(200, "not json").unwrap_err();
    assert_eq!(err, "Failed to decode response body as JSON: not json");
}

#[test]
fn test_normalize_failure_carries_code_and_message() {
    let err = openwhisk_rust::normalize_response(404, r#"{"code":"X","error":"not found"}"#)
        .unwrap_err();
    assert_eq!(err, ": Error -> [ Status :404, Message : Code: X, not found ]");
    assert!(err.contains("X"));
    assert!(err.contains("not found"));
    assert!(err.contains("404"));
}

#[test]
fn test_normalize_failure_without_structured_body_keeps_raw_text() {
    let err = openwhisk_rust::normalize_response(500, "boom").unwrap_err();
    assert_eq!(err, ": Error -> [ Status :500, Message : boom ]");
}

#[test]
fn test_both_variants_normalize_alike() {
    // The sandboxed variant reads raw bytes; fed the same responses as
    // the native normalization, both agree in category and content.
    let wasm = WasmClient::make(true);
    let cases = [
        (200u16, r#"{"a":1}"#),
        (200u16, "garbage"),
        (404u16, r#"{"code":"X","error":"not found"}"#),
        (502u16, "bad gateway"),
    ];
    for (status, body) in cases {
        let native = openwhisk_rust::normalize_response(status, body);
        let sandboxed = wasm.decode_response(status, body.as_bytes().to_vec());
        assert_eq!(native, sandboxed);
    }
}

#[test]
fn test_wasm_decode_rejects_invalid_utf8() {
    let wasm = WasmClient::make(false);
    let err = wasm.decode_response(200, vec![0xff, 0xfe]).unwrap_err();
    assert_eq!(err, "Response body is not valid UTF-8");
}

#[test]
fn test_wasm_new_request_builds_complete_request() {
    let wasm = WasmClient::make(true);
    let body: Value = serde_json::from_str(r#"{"k":"v"}"#).unwrap();
    let req = wasm
        .new_request(
            Some(HttpMethods::POST),
            "http://127.0.0.1:8080/api/v1/namespaces/guest/actions/cars?blocking=true&result=true",
            Some(("user", "pass")),
            Some(body),
        )
        .unwrap();
    let request = req.request;
    assert_eq!(request.method(), http::Method::POST);
    assert_eq!(
        request.uri().to_string(),
        "http://127.0.0.1:8080/api/v1/namespaces/guest/actions/cars?blocking=true&result=true"
    );
    assert_eq!(
        request.headers().get("Content-Type").unwrap(),
        "application/json"
    );
    assert_eq!(request.headers().get("Upgrade-Insecure-Requests").unwrap(), "1");
    let expected_auth = format!("Basic {}", base64::encode("user:pass"));
    assert_eq!(
        request.headers().get("Authorization").unwrap(),
        expected_auth.as_str()
    );
    let bytes = request.body().as_ref().unwrap();
    let sent: Value = serde_json::from_slice(bytes).unwrap();
    assert_eq!(sent.get("k").and_then(|v| v.as_str()), Some("v"));
}

#[test]
fn test_wasm_new_request_without_method_is_an_error() {
    let wasm = WasmClient::make(false);
    assert!(wasm.new_request(None, "http://h", None, None).is_err());
}

#[test]
fn test_whisk_errors_renders_status_and_message() {
    let s = openwhisk_rust::whisk_errors(404, "gone".to_string());
    assert_eq!(s, ": Error -> [ Status :404, Message : gone ]");
}

#[test]
fn test_u16_rendering() {
    assert_eq!(openwhisk_rust::u16_to_dec(0), "0");
    assert_eq!(openwhisk_rust::u16_to_dec(7), "7");
    assert_eq!(openwhisk_rust::u16_to_dec(404), "404");
    assert_eq!(openwhisk_rust::u16_to_dec(65535), "65535");
}

#[test]
fn test_bool_rendering() {
    assert_eq!(openwhisk_rust::bool_str(true), "true");
    assert_eq!(openwhisk_rust::bool_str(false), "false");
}

#[test]
fn test_url_builders() {
    assert_eq!(
        openwhisk_rust::collection_url("http://h", "guest", "actions"),
        "http://h/api/v1/namespaces/guest/actions"
    );
    assert_eq!(
        openwhisk_rust::entity_url("http://h", "guest", "rules", "r1"),
        "http://h/api/v1/namespaces/guest/rules/r1"
    );
}

#[test]
fn test_context_resolution_prefers_overrides() {
    let env = EnvOverrides {
        api_key: Some("envuser:envpass".to_string()),
        host: Some("http://env-host".to_string()),
        namespace: Some("envspace".to_string()),
    };
    let props = WskProperties::new(
        "user:pass".to_string(),
        "http://prop-host".to_string(),
        "propspace".to_string(),
    );
    let ctx = Context::new(&env, Some(&props)).unwrap();
    assert_eq!(ctx.host(), "http://env-host");
    assert_eq!(ctx.namespace(), "envspace");
    assert_eq!(ctx.auth(), ("envuser", "envpass"));
}

#[test]
fn test_context_resolution_uses_properties_then_defaults() {
    let props = WskProperties::new(
        "user:pass".to_string(),
        "http://prop-host".to_string(),
        "propspace".to_string(),
    );
    let ctx = Context::new(&EnvOverrides::none(), Some(&props)).unwrap();
    assert_eq!(ctx.host(), "http://prop-host");
    assert_eq!(ctx.namespace(), "propspace");
    assert_eq!(ctx.auth(), ("user", "pass"));
    assert!(!ctx.is_secure());

    let ctx = Context::new(&EnvOverrides::none(), None).unwrap();
    assert_eq!(ctx.host(), "host.docker.internal");
    assert_eq!(ctx.namespace(), "guest");
    assert_eq!(ctx.auth(), ("test", "test"));
}

#[test]
fn test_context_splits_credentials_on_first_colon() {
    let props = WskProperties::new(
        "user:pa:ss".to_string(),
        "http://h".to_string(),
        "guest".to_string(),
    );
    let ctx = Context::new(&EnvOverrides::none(), Some(&props)).unwrap();
    assert_eq!(ctx.auth(), ("user", "pa:ss"));
}

#[test]
fn test_context_rejects_credentials_without_colon() {
    let props = WskProperties::new(
        "malformed".to_string(),
        "http://h".to_string(),
        "guest".to_string(),
    );
    let err = Context::new(&EnvOverrides::none(), Some(&props)).unwrap_err();
    assert_eq!(err, "Invalid auth token: missing ':' separator");
}

#[test]
fn test_wsk_properties_builders() {
    let p = WskProperties::new(
        "user:pass".to_string(),
        "http://h".to_string(),
        "guest".to_string(),
    );
    assert_eq!(p.version, "v1");
    assert!(!p.insecure);
    let p = p
        .set_debug(true)
        .set_verbose(true)
        .set_version("v2".to_string())
        .set_bypass_cerificate_check(true);
    assert!(p.debug);
    assert!(p.verbose);
    assert!(p.insecure);
    assert_eq!(p.version, "v2");
    assert_eq!(p.auth_token, "user:pass");
}

#[test]
fn test_eq_ignore_case_matches_lowercase_reference() {
    assert!(openwhisk_rust::eq_ignore_case("ACTIVE", "active"));
    assert!(openwhisk_rust::eq_ignore_case("InAcTiVe", "inactive"));
    assert!(!openwhisk_rust::eq_ignore_case("activee", "active"));
    assert!(!openwhisk_rust::eq_ignore_case("activ", "active"));
}
