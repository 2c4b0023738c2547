use helix_rs::HelixDB;
use helix_rs::HelixError;

#[test]
fn test_basic_query() {
    let client = HelixDB::new(None, None, None);

    let mut input = serde_json::Map::new();
    input.insert(
        "name".to_string(),
        serde_json::Value::String("John".to_string()),
    );
    input.insert(
        "age".to_string(),
        serde_json::Value::Number(serde_json::Number::from(20)),
    );
    let body = serde_json::to_string(&serde_json::Value::Object(input)).unwrap();

    let plan = client.plan_request("add_user", body.clone());
    assert_eq!(plan.url, "http://localhost/add_user");
    assert!(plan.api_key_header.is_none());
    assert_eq!(plan.body, body);
}

#[test]
fn test_query_with_api_key() {
    let client = HelixDB::new(None, None, Some("test-api-key"));

    let mut input = serde_json::Map::new();
    input.insert(
        "name".to_string(),
        serde_json::Value::String("Jane".to_string()),
    );
    input.insert(
        "age".to_string(),
        serde_json::Value::Number(serde_json::Number::from(25)),
    );
    let body = serde_json::to_string(&serde_json::Value::Object(input)).unwrap();

    let plan = client.plan_request("add_user", body.clone());
    assert_eq!(plan.url, "http://localhost/add_user");
    let header = plan.api_key_header.unwrap();
    assert_eq!(header.name, "x-api-key");
    assert_eq!(header.value, "test-api-key");
    assert_eq!(plan.body, body);
}

#[test]
fn url_without_port_omits_port_segment() {
    let client = HelixDB::new(Some("http://example.com"), None, None);
    assert_eq!(client.request_url("add_user"), "http://example.com/add_user");
}

#[test]
fn url_with_port_includes_port_segment() {
    let client = HelixDB::new(Some("http://example.com"), Some(6969), None);
    assert_eq!(
        client.request_url("add_user"),
        "http://example.com:6969/add_user"
    );
}

#[test]
fn endpoint_defaults_to_localhost() {
    let client = HelixDB::new(None, Some(80), None);
    assert_eq!(client.request_url("q"), "http://localhost:80/q");
}

#[test]
fn api_key_header_absent_without_key() {
    let client = HelixDB::new(Some("http://example.com"), None, None);
    let plan = client.plan_request("q", "{}".to_string());
    assert!(plan.api_key_header.is_none());
}

#[test]
fn api_key_header_present_with_key() {
    let client = HelixDB::new(Some("http://example.com"), Some(443), Some("s3cret"));
    let plan = client.plan_request("q", "{}".to_string());
    let header = plan.api_key_header.unwrap();
    assert_eq!(header.name, "x-api-key");
    assert_eq!(header.value, "s3cret");
}

#[test]
fn round_trip_preserves_encoded_value() {
    let mut map = serde_json::Map::new();
    map.insert(
        "name".to_string(),
        serde_json::Value::String("John".to_string()),
    );
    map.insert(
        "age".to_string(),
        serde_json::Value::Number(serde_json::Number::from(20)),
    );
    let original = serde_json::Value::Object(map);

    let encoded = serde_json::to_string(&original).unwrap();
    let payload = helix_rs::interpret_response(200, &encoded).unwrap();
    let decoded: serde_json::Value = serde_json::from_str(&payload).unwrap();
    assert_eq!(decoded, original);
}

#[test]
fn scenario_add_user_against_echoing_server() {
    let client = HelixDB::new(Some("http://localhost"), None, None);

    let mut user = serde_json::Map::new();
    user.insert(
        "name".to_string(),
        serde_json::Value::String("John".to_string()),
    );
    user.insert(
        "age".to_string(),
        serde_json::Value::Number(serde_json::Number::from(20)),
    );
    let body = serde_json::to_string(&serde_json::Value::Object(user.clone())).unwrap();

    let plan = client.plan_request("add_user", body);
    assert_eq!(plan.url, "http://localhost/add_user");
    assert!(plan.api_key_header.is_none());

    // The server stores the record and echoes it back under "user", with a
    // fresh identity field.
    let mut stored = user;
    stored.insert(
        "id".to_string(),
        serde_json::Value::String("f81d4fae-7dec-11d0-a765-00a0c91e6bf6".to_string()),
    );
    let mut reply = serde_json::Map::new();
    reply.insert("user".to_string(), serde_json::Value::Object(stored));
    let reply_body = serde_json::to_string(&serde_json::Value::Object(reply)).unwrap();

    let payload = helix_rs::interpret_response(200, &reply_body).unwrap();
    let decoded: serde_json::Value = serde_json::from_str(&payload).unwrap();
    assert_eq!(
        decoded["user"]["name"],
        serde_json::Value::String("John".to_string())
    );
    assert_eq!(
        decoded["user"]["age"],
        serde_json::Value::Number(serde_json::Number::from(20))
    );
    assert!(!decoded["user"]["id"].as_str().unwrap().is_empty());
}

#[test]
fn non_success_with_body_reports_body_verbatim() {
    let result = helix_rs::interpret_response(500, "database on fire");
    match result {
        Err(HelixError::RemoteError { details }) => {
            assert_eq!(details, "database on fire");
        }
        _ => panic!("expected a remote error"),
    }
}

#[test]
fn non_success_with_empty_body_reports_reason_phrase() {
    let result = helix_rs::interpret_response(404, "");
    match result {
        Err(HelixError::RemoteError { details }) => {
            assert_eq!(details, "Not Found");
        }
        _ => panic!("expected a remote error"),
    }
}

#[test]
fn non_success_unknown_code_reports_numeric_fallback() {
    let result = helix_rs::interpret_response(599, "");
    match result {
        Err(HelixError::RemoteError { details }) => {
            assert_eq!(details, "unknown error with code: 599");
        }
        _ => panic!("expected a remote error"),
    }
}

#[test]
fn success_status_hands_payload_on() {
    let payload = helix_rs::interpret_response(200, "{\"ok\":true}").unwrap();
    assert_eq!(payload, "{\"ok\":true}");
}

#[test]
fn remote_error_details_prefers_body() {
    assert_eq!(
        helix_rs::remote_error_details(404, "missing user"),
        "missing user"
    );
    assert_eq!(helix_rs::remote_error_details(404, ""), "Not Found");
    assert_eq!(
        helix_rs::remote_error_details(299, ""),
        "unknown error with code: 299"
    );
}
