use presence_detector::config::{build_config, config_for_room, dash_spaces, get_config, parse_port, room_slug};
use presence_detector::decimal::NumberError;

#[test]
fn development_config_values() {
    let c = get_config();
    assert_eq!(c.mqtt.host, "localhost");
    assert_eq!(c.mqtt.port, 1883);
    assert_eq!(c.mqtt.client_id, "transmitter-1");
    assert_eq!(c.mqtt.topic, "presence/master-bedroom/");
    assert_eq!(c.pin, "C0");
    assert_eq!(c.sensor_id, "1");
    assert_eq!(
        c.home_assistant.discovery_topic,
        "homeassistant/binary_sensor/master-bedroom-1-presence/config"
    );
    assert_eq!(c.home_assistant.state_topic, "presence/master-bedroom/1/ha_state");
    assert_eq!(c.home_assistant.unique_id, "master-bedroom-1-presence");
    assert_eq!(c.home_assistant.entity_name, "Master Bedroom Presence");
    assert_eq!(c.home_assistant.device_name, "Master Bedroom Presence Sensor 1");
    assert_eq!(c.home_assistant.device_identifier, "master-bedroom-1");
}

#[test]
fn environment_config_for_a_room() {
    let c = build_config(
        "broker.local".to_string(),
        "1884",
        "17".to_string(),
        "Master Bedroom",
        "2".to_string(),
    );
    assert_eq!(c.mqtt.host, "broker.local");
    assert_eq!(c.mqtt.port, 1884);
    assert_eq!(c.mqtt.client_id, "transmitter-2");
    assert_eq!(c.mqtt.topic, "presence/Master Bedroom/");
    assert_eq!(c.pin, "17");
    assert_eq!(c.sensor_id, "2");
    assert_eq!(
        c.home_assistant.discovery_topic,
        "homeassistant/binary_sensor/master-bedroom-2-presence/config"
    );
    assert_eq!(c.home_assistant.state_topic, "presence/Master Bedroom/2/ha_state");
    assert_eq!(c.home_assistant.unique_id, "master-bedroom-2-presence");
    assert_eq!(c.home_assistant.entity_name, "Master Bedroom Presence");
    assert_eq!(c.home_assistant.device_name, "Master Bedroom Presence Sensor 2");
    assert_eq!(c.home_assistant.device_identifier, "master-bedroom-2");
}

#[test]
fn environment_config_port_with_plus_sign() {
    let c = build_config("h".to_string(), "+0", "4".to_string(), "Den", "x".to_string());
    assert_eq!(c.mqtt.port, 0);
    let c = build_config("h".to_string(), "65535", "4".to_string(), "Den", "x".to_string());
    assert_eq!(c.mqtt.port, 65535);
}

#[test]
fn ports_that_std_refuses_are_refused() {
    for port in ["", "+", "-", "-1", "65536", "18a3", " 1883", "1883 ", "99999999999", "70000"] {
        let std_err = port.parse::<u16>().unwrap_err();
        let ours = parse_port(port).unwrap_err();
        assert_eq!(ours.message(), std_err.to_string(), "port {:?}", port);
        assert_eq!(format!("{:?}", ours), format!("{:?}", std_err.kind()));
    }
    assert_eq!(parse_port("70000"), Err(NumberError::PosOverflow));
    assert_eq!(parse_port("1883"), Ok(1883));
}

#[test]
fn room_slug_lowercases_and_dashes() {
    assert_eq!(room_slug("Master Bedroom"), "master-bedroom");
    assert_eq!(room_slug("  Living  Room "), "--living--room-");
    assert_eq!(room_slug("Küche ÄÖÜ"), "küche-äöü");
    assert_eq!(room_slug("already-slug"), "already-slug");
    assert_eq!(room_slug(""), "");
}

#[test]
fn dash_spaces_keeps_everything_else() {
    assert_eq!(dash_spaces("A b\tC"), "A-b\tC");
    assert_eq!(dash_spaces("é ü"), "é-ü");
    assert_eq!(dash_spaces("   "), "---");
}

#[test]
fn room_config_keeps_its_names_consistent() {
    let c = config_for_room(
        "localhost".to_string(),
        1883,
        "C0".to_string(),
        "Office",
        "office",
        "7".to_string(),
    );
    assert_eq!(c.mqtt.client_id, format!("transmitter-{}", c.sensor_id));
    assert_eq!(c.home_assistant.unique_id, format!("{}-presence", c.home_assistant.device_identifier));
    assert_eq!(
        c.home_assistant.discovery_topic,
        format!("homeassistant/binary_sensor/{}/config", c.home_assistant.unique_id)
    );
    assert_eq!(
        c.home_assistant.state_topic,
        format!("{}{}/ha_state", c.mqtt.topic, c.sensor_id)
    );
}
