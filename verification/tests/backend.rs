use agent::backend::{
    device_url, gbos_api_url, gbos_ws_url, heartbeat_json, register_url, registration_refused,
    session_json, Registration,
};
use agent::json::JsonObject;

#[test]
fn api_url_has_no_trailing_slashes() {
    assert_eq!(gbos_api_url(None), "https://gbos-backend-production.up.railway.app");
    assert_eq!(gbos_api_url(Some("http://localhost:8000//".to_string())), "http://localhost:8000");
    assert_eq!(gbos_api_url(Some("///".to_string())), "");
    assert_eq!(gbos_api_url(Some("a/b".to_string())), "a/b");
}

#[test]
fn websocket_url_follows_the_scheme() {
    assert_eq!(gbos_ws_url("https://example.org"), "wss://example.org");
    assert_eq!(gbos_ws_url("http://example.org:80"), "ws://example.org:80");
    assert_eq!(gbos_ws_url("example.org"), "ws://example.org");
    assert_eq!(gbos_ws_url("https:/x"), "ws://https:/x");
}

#[test]
fn device_connects_under_its_id() {
    assert_eq!(device_url("https://example.org", 42), "wss://example.org/ws/devices/42");
    assert_eq!(device_url("http://h", -7), "ws://h/ws/devices/-7");
    assert_eq!(register_url("https://example.org"), "https://example.org/agents/register");
}

#[test]
fn registration_names_the_machine() {
    let known = Registration::new(Some("desk".to_string()), Some("Linux 6".to_string()), "linux");
    assert_eq!(
        known.to_json(),
        "{\"device_name\":\"desk\",\"hostname\":\"desk\",\"ip_address\":null,\"operating_system\":\"Linux 6\"}"
    );
    let unknown = Registration::new(None, None, "linux");
    assert_eq!(unknown.hostname, "GBOS-UNKNOWN");
    assert_eq!(unknown.operating_system, "linux");
    assert_eq!(
        registration_refused("404 Not Found", "no"),
        "Agent registration failed: 404 Not Found - no"
    );
}

#[test]
fn messages_are_json_objects() {
    assert_eq!(heartbeat_json(), "{\"type\":\"heartbeat\"}");
    assert_eq!(
        session_json(true, "ada"),
        "{\"event\":\"login\",\"type\":\"session\",\"username\":\"ada\"}"
    );
    assert_eq!(
        session_json(false, "a\"b"),
        "{\"event\":\"logout\",\"type\":\"session\",\"username\":\"a\\\"b\"}"
    );
}

#[test]
fn members_stand_in_the_order_of_their_names() {
    let object = JsonObject::new();
    let object = object.put_number("b", u64::MAX);
    let object = object.put_text("ab", "1");
    let object = object.put_null("B");
    let object = object.put_text("a", "x");
    let object = object.put_number("ab", 2);
    assert_eq!(object.print(), "{\"B\":null,\"a\":\"x\",\"ab\":2,\"b\":18446744073709551615}");
    assert_eq!(JsonObject::new().print(), "{}");
}

#[test]
fn texts_are_escaped() {
    assert_eq!(
        session_json(true, "\u{0}\u{1}\u{7}\u{8}\t\n\u{b}\u{c}\r\u{1f} \"\\/\u{7f}é💓"),
        "{\"event\":\"login\",\"type\":\"session\",\"username\":\"\\u0000\\u0001\\u0007\\b\\t\\n\\u000b\\f\\r\\u001f \\\"\\\\/\u{7f}é💓\"}"
    );
}
