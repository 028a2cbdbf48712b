use presence_detector::config::get_config;
use presence_detector::json::{discovery_payload, json_bool_text, json_quote, presence_payload};
use serde_json::Value;

fn s(v: &str) -> Value {
    Value::String(v.to_string())
}

#[test]
fn quoting_matches_serde_json() {
    for v in ["", "plain", "quote\"back\\slash", "\u{8}\u{c}\n\r\t", "\u{0}\u{1f}\u{7f}", "ünï ✓", "/"] {
        assert_eq!(json_quote(v), serde_json::to_string(v).unwrap());
    }
}

#[test]
fn quoting_escapes() {
    assert_eq!(json_quote("a\"b"), "\"a\\\"b\"");
    assert_eq!(json_quote("\n"), "\"\\n\"");
    assert_eq!(json_quote("\u{1}"), "\"\\u0001\"");
    assert_eq!(json_quote("\u{1b}"), "\"\\u001b\"");
}

#[test]
fn booleans() {
    assert_eq!(json_bool_text(true), "true");
    assert_eq!(json_bool_text(false), "false");
}

#[test]
fn discovery_payload_matches_serde_json_object() {
    let config = get_config();
    let ha = &config.home_assistant;
    let mut device = serde_json::Map::new();
    device.insert("identifiers".to_string(), Value::Array(vec![s(&ha.device_identifier)]));
    device.insert("name".to_string(), s(&ha.device_name));
    let mut doc = serde_json::Map::new();
    doc.insert("name".to_string(), s(&ha.entity_name));
    doc.insert("unique_id".to_string(), s(&ha.unique_id));
    doc.insert("state_topic".to_string(), s(&ha.state_topic));
    doc.insert("payload_on".to_string(), s("ON"));
    doc.insert("payload_off".to_string(), s("OFF"));
    doc.insert("device_class".to_string(), s("occupancy"));
    doc.insert("device".to_string(), Value::Object(device));
    assert_eq!(discovery_payload(ha), Value::Object(doc).to_string());
}

#[test]
fn discovery_payload_exact_text() {
    let config = get_config();
    assert_eq!(
        discovery_payload(&config.home_assistant),
        "{\"device\":{\"identifiers\":[\"master-bedroom-1\"],\"name\":\"Master Bedroom Presence Sensor 1\"},\"device_class\":\"occupancy\",\"name\":\"Master Bedroom Presence\",\"payload_off\":\"OFF\",\"payload_on\":\"ON\",\"state_topic\":\"presence/master-bedroom/1/ha_state\",\"unique_id\":\"master-bedroom-1-presence\"}"
    );
}

#[test]
fn presence_payload_matches_serde_json_object() {
    for (presence, ts, id) in [(true, "2024-01-01 00:00:00 UTC", "1"), (false, "t\"x", "sensor \\ 2")] {
        let mut doc = serde_json::Map::new();
        doc.insert("presence".to_string(), Value::Bool(presence));
        doc.insert("timestamp".to_string(), s(ts));
        doc.insert("sensor_id".to_string(), s(id));
        assert_eq!(presence_payload(presence, ts, id), Value::Object(doc).to_string());
    }
}

#[test]
fn presence_payload_exact_text() {
    assert_eq!(
        presence_payload(true, "now", "1"),
        "{\"presence\":true,\"sensor_id\":\"1\",\"timestamp\":\"now\"}"
    );
}
