use vstd::prelude::*;
use vstd::string::*;
use crate::config::HomeAssistantConfig;
use crate::decimal::{decimal_chars, decimal_string, lemma_parse_decimal_roundtrip, parse_unsigned, NumberError};
use crate::json::{discovery_document, discovery_payload};
use crate::text::concat;

verus! {

/// The quality of service of every message the sensor publishes: at least once.
pub const QOS_AT_LEAST_ONCE: i32 = 1;

/// Seconds between keep-alive pings to the broker.
pub const KEEP_ALIVE_SECS: u64 = 30;

/// One message to publish: where, what, at which quality of service, and
/// whether the broker keeps it for later subscribers.
#[derive(Debug)]
pub struct MqttMessage {
    pub topic: String,
    pub payload: String,
    pub qos: i32,
    pub retained: bool,
}

/// How the client reaches and talks to the broker.
#[derive(Debug)]
pub struct ClientSettings {
    pub server_uri: String,
    pub client_id: String,
    pub keep_alive_secs: u64,
    pub clean_session: bool,
}

/// The address of a broker reached over plain TCP.
pub open spec fn server_uri_of(host: Seq<char>, port: u16) -> Seq<char> {
    "tcp://"@ + host + ":"@ + decimal_chars(port as nat)
}

/// For every host and port, the broker address is `tcp://`, the host as
/// given, a colon, and then digits that read back as the port itself.
pub proof fn lemma_server_uri_parts(host: Seq<char>, port: u16)
    ensures
        server_uri_of(host, port).take(("tcp://"@ + host + ":"@).len() as int) == "tcp://"@ + host
            + ":"@,
        parse_unsigned(
            server_uri_of(host, port).skip(("tcp://"@ + host + ":"@).len() as int),
            65535,
        ) == Ok::<nat, NumberError>(port as nat),
{
    let pre = "tcp://"@ + host + ":"@;
    let uri = server_uri_of(host, port);
    assert(uri.take(pre.len() as int) =~= pre);
    assert(uri.skip(pre.len() as int) =~= decimal_chars(port as nat));
    lemma_parse_decimal_roundtrip(port as nat, 65535);
}

/// `tcp://{host}:{port}`.
pub fn server_uri(host: &str, port: u16) -> (uri: String)
    ensures
        uri@ == server_uri_of(host@, port),
        uri@.take(("tcp://"@ + host@ + ":"@).len() as int) == "tcp://"@ + host@ + ":"@,
        parse_unsigned(uri@.skip(("tcp://"@ + host@ + ":"@).len() as int), 65535) == Ok::<
            nat,
            NumberError,
        >(port as nat),
{
    proof {
        lemma_server_uri_parts(host@, port);
    }
    let port_text = decimal_string(port as u32);
    let mut uri = concat("tcp://", host);
    uri.append(":");
    uri.append(port_text.as_str());
    assert(uri@ =~= server_uri_of(host@, port));
    uri
}

/// The settings of a client with id `client_id` for the broker at
/// `host`:`port`: keep-alive every 30 seconds, and a clean session.
pub fn client_settings(host: &str, port: u16, client_id: &str) -> (settings: ClientSettings)
    ensures
        settings.server_uri@ == server_uri_of(host@, port),
        settings.server_uri@.take(("tcp://"@ + host@ + ":"@).len() as int) == "tcp://"@ + host@
            + ":"@,
        parse_unsigned(settings.server_uri@.skip(("tcp://"@ + host@ + ":"@).len() as int), 65535)
            == Ok::<nat, NumberError>(port as nat),
        settings.client_id@ == client_id@,
        settings.keep_alive_secs == KEEP_ALIVE_SECS,
        settings.clean_session,
{
    ClientSettings {
        server_uri: server_uri(host, port),
        client_id: String::from_str(client_id),
        keep_alive_secs: KEEP_ALIVE_SECS,
        clean_session: true,
    }
}

/// A report on the sensor's own topic: at least once, not retained.
pub fn sensor_message(topic: &str, message: String) -> (msg: MqttMessage)
    ensures
        msg.topic@ == topic@,
        msg.payload@ == message@,
        msg.qos == QOS_AT_LEAST_ONCE,
        !msg.retained,
{
    MqttMessage { topic: String::from_str(topic), payload: message, qos: QOS_AT_LEAST_ONCE, retained: false }
}

/// The Home Assistant state of a binary sensor.
pub open spec fn state_text(presence_detected: bool) -> Seq<char> {
    if presence_detected {
        "ON"@
    } else {
        "OFF"@
    }
}

/// `ON` while presence is detected, `OFF` otherwise.
pub fn state_payload(presence_detected: bool) -> (payload: &'static str)
    ensures
        payload@ == state_text(presence_detected),
        presence_detected ==> payload@ == "ON"@,
        !presence_detected ==> payload@ == "OFF"@,
{
    if presence_detected {
        "ON"
    } else {
        "OFF"
    }
}

/// What the sensor publishes to Home Assistant, in order: the discovery
/// document on the discovery topic, then the state on the state topic; both
/// at least once and retained.
pub fn home_assistant_messages(config: &HomeAssistantConfig, presence_detected: bool) -> (msgs: Vec<MqttMessage>)
    ensures
        msgs.len() == 2,
        msgs[0].topic@ == config.discovery_topic@,
        msgs[0].payload@ == discovery_document(config@),
        msgs[1].topic@ == config.state_topic@,
        msgs[1].payload@ == state_text(presence_detected),
        presence_detected ==> msgs[1].payload@ == "ON"@,
        !presence_detected ==> msgs[1].payload@ == "OFF"@,
        forall|i: int| 0 <= i < 2 ==> #[trigger] msgs[i].qos == QOS_AT_LEAST_ONCE && msgs[i].retained,
{
    let discovery = MqttMessage {
        topic: config.discovery_topic.clone(),
        payload: discovery_payload(config),
        qos: QOS_AT_LEAST_ONCE,
        retained: true,
    };
    let state = MqttMessage {
        topic: config.state_topic.clone(),
        payload: String::from_str(state_payload(presence_detected)),
        qos: QOS_AT_LEAST_ONCE,
        retained: true,
    };
    let mut msgs = Vec::new();
    msgs.push(discovery);
    msgs.push(state);
    msgs
}

} // verus!
