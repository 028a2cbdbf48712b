use presence_detector::config::get_config;
use presence_detector::json::discovery_payload;
use presence_detector::mqtt::{
    client_settings, home_assistant_messages, sensor_message, server_uri, state_payload,
    KEEP_ALIVE_SECS, QOS_AT_LEAST_ONCE,
};

#[test]
fn server_uri_is_tcp_host_port() {
    assert_eq!(server_uri("localhost", 1883), "tcp://localhost:1883");
    assert_eq!(server_uri("10.0.0.2", 0), "tcp://10.0.0.2:0");
    assert_eq!(server_uri("h", 65535), "tcp://h:65535");
}

#[test]
fn client_settings_of_the_sensor() {
    let s = client_settings("localhost", 1883, "transmitter-1");
    assert_eq!(s.server_uri, "tcp://localhost:1883");
    assert_eq!(s.client_id, "transmitter-1");
    assert_eq!(s.keep_alive_secs, 30);
    assert_eq!(KEEP_ALIVE_SECS, 30);
    assert!(s.clean_session);
}

#[test]
fn sensor_message_is_qos1_not_retained() {
    let m = sensor_message("presence/master-bedroom/", "hello".to_string());
    assert_eq!(m.topic, "presence/master-bedroom/");
    assert_eq!(m.payload, "hello");
    assert_eq!(m.qos, 1);
    assert_eq!(QOS_AT_LEAST_ONCE, 1);
    assert!(!m.retained);
}

#[test]
fn state_payload_on_off() {
    assert_eq!(state_payload(true), "ON");
    assert_eq!(state_payload(false), "OFF");
}

#[test]
fn home_assistant_messages_discovery_then_state() {
    let config = get_config();
    for presence in [true, false] {
        let msgs = home_assistant_messages(&config.home_assistant, presence);
        assert_eq!(msgs.len(), 2);
        assert_eq!(msgs[0].topic, "homeassistant/binary_sensor/master-bedroom-1-presence/config");
        assert_eq!(msgs[0].payload, discovery_payload(&config.home_assistant));
        assert_eq!(msgs[1].topic, "presence/master-bedroom/1/ha_state");
        assert_eq!(msgs[1].payload, if presence { "ON" } else { "OFF" });
        for m in &msgs {
            assert_eq!(m.qos, 1);
            assert!(m.retained);
        }
    }
}
