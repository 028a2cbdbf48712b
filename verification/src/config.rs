use vstd::prelude::*;
use vstd::string::*;
use crate::decimal::{parse_unsigned, parse_unsigned_decimal, NumberError};
use crate::text::concat;

verus! {

/// Where the MQTT broker is and how this sensor appears on it.
#[derive(Debug)]
pub struct MqttConfig {
    pub host: String,
    pub port: u16,
    pub client_id: String,
    pub topic: String,
}

/// The names under which the sensor announces itself to Home Assistant.
#[derive(Debug)]
pub struct HomeAssistantConfig {
    pub discovery_topic: String,
    pub state_topic: String,
    pub unique_id: String,
    pub entity_name: String,
    pub device_name: String,
    pub device_identifier: String,
}

/// The whole configuration of one presence sensor.
#[derive(Debug)]
pub struct Config {
    pub mqtt: MqttConfig,
    pub pin: String,
    pub sensor_id: String,
    pub home_assistant: HomeAssistantConfig,
}

/// The contents of an [`MqttConfig`].
#[verifier::ext_equal]
pub struct MqttConfigView {
    pub host: Seq<char>,
    pub port: u16,
    pub client_id: Seq<char>,
    pub topic: Seq<char>,
}

/// The contents of a [`HomeAssistantConfig`].
#[verifier::ext_equal]
pub struct HomeAssistantConfigView {
    pub discovery_topic: Seq<char>,
    pub state_topic: Seq<char>,
    pub unique_id: Seq<char>,
    pub entity_name: Seq<char>,
    pub device_name: Seq<char>,
    pub device_identifier: Seq<char>,
}

/// The contents of a [`Config`].
#[verifier::ext_equal]
pub struct ConfigView {
    pub mqtt: MqttConfigView,
    pub pin: Seq<char>,
    pub sensor_id: Seq<char>,
    pub home_assistant: HomeAssistantConfigView,
}

impl View for MqttConfig {
    type V = MqttConfigView;

    open spec fn view(&self) -> MqttConfigView {
        MqttConfigView {
            host: self.host@,
            port: self.port,
            client_id: self.client_id@,
            topic: self.topic@,
        }
    }
}

impl View for HomeAssistantConfig {
    type V = HomeAssistantConfigView;

    open spec fn view(&self) -> HomeAssistantConfigView {
        HomeAssistantConfigView {
            discovery_topic: self.discovery_topic@,
            state_topic: self.state_topic@,
            unique_id: self.unique_id@,
            entity_name: self.entity_name@,
            device_name: self.device_name@,
            device_identifier: self.device_identifier@,
        }
    }
}

impl View for Config {
    type V = ConfigView;

    open spec fn view(&self) -> ConfigView {
        ConfigView {
            mqtt: self.mqtt@,
            pin: self.pin@,
            sensor_id: self.sensor_id@,
            home_assistant: self.home_assistant@,
        }
    }
}

/// The relations that every configuration keeps between its names: the
/// client id and the device identifier carry the sensor id, the unique id
/// extends the device identifier, the discovery topic carries the unique id,
/// and the Home Assistant state topic lies under the sensor's MQTT topic.
pub open spec fn config_is_consistent(c: ConfigView) -> bool {
    &&& c.mqtt.client_id == "transmitter-"@ + c.sensor_id
    &&& c.home_assistant.unique_id == c.home_assistant.device_identifier + "-presence"@
    &&& c.home_assistant.discovery_topic == "homeassistant/binary_sensor/"@
        + c.home_assistant.unique_id + "/config"@
    &&& c.home_assistant.state_topic == c.mqtt.topic + c.sensor_id + "/ha_state"@
}

/// The configuration used during development: a broker on this machine and
/// sensor `1` in the master bedroom, read through FTDI pin `C0`.
pub fn get_config() -> (config: Config)
    ensures
        config@.mqtt.host == "localhost"@,
        config@.mqtt.port == 1883,
        config@.mqtt.client_id == "transmitter-1"@,
        config@.mqtt.topic == "presence/master-bedroom/"@,
        config@.pin == "C0"@,
        config@.sensor_id == "1"@,
        config@.home_assistant.discovery_topic
            == "homeassistant/binary_sensor/master-bedroom-1-presence/config"@,
        config@.home_assistant.state_topic == "presence/master-bedroom/1/ha_state"@,
        config@.home_assistant.unique_id == "master-bedroom-1-presence"@,
        config@.home_assistant.entity_name == "Master Bedroom Presence"@,
        config@.home_assistant.device_name == "Master Bedroom Presence Sensor 1"@,
        config@.home_assistant.device_identifier == "master-bedroom-1"@,
        config_is_consistent(config@),
{
    let room = "master-bedroom";
    let sensor_id = String::from_str("1");
    let unique_id = concat(concat(concat(room, "-").as_str(), sensor_id.as_str()).as_str(), "-presence");
    let client_id = concat("transmitter-", sensor_id.as_str());
    let topic = concat(concat("presence/", room).as_str(), "/");
    let discovery_topic = concat(
        concat("homeassistant/binary_sensor/", unique_id.as_str()).as_str(),
        "/config",
    );
    let state_topic = concat(concat(concat("presence/", room).as_str(), "/1").as_str(), "/ha_state");
    proof {
        reveal_strlit("master-bedroom");
        reveal_strlit("1");
        reveal_strlit("-");
        reveal_strlit("-presence");
        reveal_strlit("transmitter-");
        reveal_strlit("presence/");
        reveal_strlit("/");
        reveal_strlit("homeassistant/binary_sensor/");
        reveal_strlit("/config");
        reveal_strlit("/1");
        reveal_strlit("/ha_state");
        reveal_strlit("localhost");
        reveal_strlit("C0");
        reveal_strlit("Master Bedroom Presence");
        reveal_strlit("Master Bedroom Presence Sensor 1");
        reveal_strlit("master-bedroom-1");
        reveal_strlit("transmitter-1");
        reveal_strlit("presence/master-bedroom/");
        reveal_strlit("homeassistant/binary_sensor/master-bedroom-1-presence/config");
        reveal_strlit("presence/master-bedroom/1/ha_state");
        reveal_strlit("master-bedroom-1-presence");
        assert(unique_id@ =~= "master-bedroom-1-presence"@);
        assert(client_id@ =~= "transmitter-1"@);
        assert(topic@ =~= "presence/master-bedroom/"@);
        assert(discovery_topic@ =~= "homeassistant/binary_sensor/master-bedroom-1-presence/config"@);
        assert(state_topic@ =~= "presence/master-bedroom/1/ha_state"@);
        assert("master-bedroom-1-presence"@ =~= "master-bedroom-1"@ + "-presence"@);
        assert("presence/master-bedroom/1/ha_state"@ =~= "presence/master-bedroom/"@ + "1"@
            + "/ha_state"@);
    }
    Config {
        mqtt: MqttConfig {
            host: String::from_str("localhost"),
            port: 1883,
            client_id,
            topic,
        },
        pin: String::from_str("C0"),
        sensor_id,
        home_assistant: HomeAssistantConfig {
            discovery_topic,
            state_topic,
            unique_id,
            entity_name: String::from_str("Master Bedroom Presence"),
            device_name: String::from_str("Master Bedroom Presence Sensor 1"),
            device_identifier: String::from_str("master-bedroom-1"),
        },
    }
}

/// The name std's `str::to_lowercase` gives to the lowercase form of `s`
/// under Unicode's rules.
pub uninterp spec fn unicode_lowercase(s: Seq<char>) -> Seq<char>;

/// Calls std's `str::to_lowercase`. What it claims: the result is the
/// lowercase form of `s`, a function of `s` alone, named
/// [`unicode_lowercase`]; the Unicode case tables it follows are not
/// restated here.
#[verifier::external_body]
fn to_lowercase(s: &str) -> (res: String)
    ensures
        res@ == unicode_lowercase(s@),
{
    s.to_lowercase()
}

/// `s` with every space turned into a dash.
pub open spec fn dashes_for_spaces(s: Seq<char>) -> Seq<char> {
    s.map_values(|c: char| if c == ' ' { '-' } else { c })
}

/// The room name as it appears in identifiers: lowercase, with dashes in
/// place of spaces.
pub open spec fn room_slug_of(room: Seq<char>) -> Seq<char> {
    dashes_for_spaces(unicode_lowercase(room))
}

/// Replaces every space of `s` by a dash and keeps every other character.
pub fn dash_spaces(s: &str) -> (res: String)
    ensures
        res@ == dashes_for_spaces(s@),
        res@.len() == s@.len(),
        !res@.contains(' '),
        forall|i: int| 0 <= i < s@.len() && s@[i] == ' ' ==> res@[i] == '-',
        forall|i: int| 0 <= i < s@.len() && s@[i] != ' ' ==> res@[i] == s@[i],
{
    let n = s.unicode_len();
    let mut out = String::new();
    let mut i: usize = 0;
    while i < n
        invariant
            i <= n,
            n == s@.len(),
            out@ =~= dashes_for_spaces(s@.take(i as int)),
        decreases n - i,
    {
        let c = s.get_char(i);
        proof {
            reveal_strlit("-");
        }
        if c == ' ' {
            out.append("-");
        } else {
            out.append(s.substring_char(i, i + 1));
        }
        assert(s@.take(i + 1) =~= s@.take(i as int).push(c));
        i = i + 1;
    }
    assert(s@.take(n as int) =~= s@);
    assert forall|k: int| 0 <= k < out@.len() implies out@[k] != ' ' by {}
    out
}

/// The identifier form of a room name, as the sensor's names use it:
/// `room.to_lowercase()` with every space turned into a dash.
pub fn room_slug(room: &str) -> (slug: String)
    ensures
        slug@ == room_slug_of(room@),
        !slug@.contains(' '),
{
    let lowered = to_lowercase(room);
    dash_spaces(lowered.as_str())
}

/// The configuration of sensor `sensor_id` in room `room`, whose identifier
/// form is `slug`, reporting to the broker at `host`:`port` and read on `pin`.
pub open spec fn room_config(
    host: Seq<char>,
    port: u16,
    pin: Seq<char>,
    room: Seq<char>,
    slug: Seq<char>,
    sensor_id: Seq<char>,
) -> ConfigView {
    let unique_id = slug + "-"@ + sensor_id + "-presence"@;
    ConfigView {
        mqtt: MqttConfigView {
            host,
            port,
            client_id: "transmitter-"@ + sensor_id,
            topic: "presence/"@ + room + "/"@,
        },
        pin,
        sensor_id,
        home_assistant: HomeAssistantConfigView {
            discovery_topic: "homeassistant/binary_sensor/"@ + unique_id + "/config"@,
            state_topic: "presence/"@ + room + "/"@ + sensor_id + "/ha_state"@,
            unique_id,
            entity_name: room + " Presence"@,
            device_name: room + " Presence Sensor "@ + sensor_id,
            device_identifier: slug + "-"@ + sensor_id,
        },
    }
}

/// Every configuration built for a room keeps the relations of
/// [`config_is_consistent`], whatever the room, slug, sensor id and broker.
pub proof fn lemma_room_config_consistent(
    host: Seq<char>,
    port: u16,
    pin: Seq<char>,
    room: Seq<char>,
    slug: Seq<char>,
    sensor_id: Seq<char>,
)
    ensures
        config_is_consistent(room_config(host, port, pin, room, slug, sensor_id)),
{
    let c = room_config(host, port, pin, room, slug, sensor_id);
    assert(c.home_assistant.unique_id =~= c.home_assistant.device_identifier + "-presence"@);
    assert(c.home_assistant.state_topic =~= c.mqtt.topic + c.sensor_id + "/ha_state"@);
}

/// What each name of a room's configuration is made of, for every broker,
/// pin, room, slug and sensor id: the whole sensor id follows the slug in
/// the device identifier and the unique id, the room name itself (not its
/// slug) stands in the topics and display names, and the broker, pin and
/// sensor id are kept as given.
pub proof fn lemma_room_config_names(
    host: Seq<char>,
    port: u16,
    pin: Seq<char>,
    room: Seq<char>,
    slug: Seq<char>,
    sensor_id: Seq<char>,
)
    ensures
        room_config(host, port, pin, room, slug, sensor_id).home_assistant.device_identifier
            == slug + "-"@ + sensor_id,
        room_config(host, port, pin, room, slug, sensor_id).home_assistant.unique_id == slug
            + "-"@ + sensor_id + "-presence"@,
        room_config(host, port, pin, room, slug, sensor_id).home_assistant.discovery_topic
            == "homeassistant/binary_sensor/"@ + slug + "-"@ + sensor_id + "-presence"@
            + "/config"@,
        room_config(host, port, pin, room, slug, sensor_id).home_assistant.state_topic
            == "presence/"@ + room + "/"@ + sensor_id + "/ha_state"@,
        room_config(host, port, pin, room, slug, sensor_id).home_assistant.entity_name == room
            + " Presence"@,
        room_config(host, port, pin, room, slug, sensor_id).home_assistant.device_name == room
            + " Presence Sensor "@ + sensor_id,
        room_config(host, port, pin, room, slug, sensor_id).mqtt.client_id == "transmitter-"@
            + sensor_id,
        room_config(host, port, pin, room, slug, sensor_id).mqtt.topic == "presence/"@ + room
            + "/"@,
        room_config(host, port, pin, room, slug, sensor_id).mqtt.host == host,
        room_config(host, port, pin, room, slug, sensor_id).mqtt.port == port,
        room_config(host, port, pin, room, slug, sensor_id).pin == pin,
        room_config(host, port, pin, room, slug, sensor_id).sensor_id == sensor_id,
{
}

/// Two sensors of one room with different ids get different unique ids
/// and different device identifiers, so Home Assistant keeps them apart.
pub proof fn lemma_sensor_ids_stay_apart(slug: Seq<char>, a: Seq<char>, b: Seq<char>)
    requires
        a != b,
    ensures
        slug + "-"@ + a != slug + "-"@ + b,
        slug + "-"@ + a + "-presence"@ != slug + "-"@ + b + "-presence"@,
{
    let pa = slug + "-"@;
    if pa + a == pa + b {
        assert(a =~= b) by {
            assert forall|i: int| 0 <= i < a.len() implies a[i] == b[i] by {
                assert((pa + a)[pa.len() + i] == (pa + b)[pa.len() + i]);
            }
        }
    }
    let sfx = "-presence"@;
    if pa + a + sfx == pa + b + sfx {
        assert((pa + a + sfx).len() == (pa + b + sfx).len());
        assert(a =~= b) by {
            assert forall|i: int| 0 <= i < a.len() implies a[i] == b[i] by {
                assert((pa + a + sfx)[pa.len() + i] == (pa + b + sfx)[pa.len() + i]);
            }
        }
    }
}

/// Builds the configuration of a sensor from its parts, once the port has
/// been read and the room's identifier form `slug` computed.
pub fn config_for_room(
    mqtt_host: String,
    mqtt_port: u16,
    pin: String,
    room: &str,
    slug: &str,
    sensor_id: String,
) -> (config: Config)
    ensures
        config@ == room_config(mqtt_host@, mqtt_port, pin@, room@, slug@, sensor_id@),
        config_is_consistent(config@),
        config.home_assistant.device_identifier@ == slug@ + "-"@ + sensor_id@,
        config.home_assistant.unique_id@ == slug@ + "-"@ + sensor_id@ + "-presence"@,
        config.home_assistant.state_topic@ == "presence/"@ + room@ + "/"@ + sensor_id@
            + "/ha_state"@,
        config.mqtt.client_id@ == "transmitter-"@ + sensor_id@,
        config.mqtt.topic@ == "presence/"@ + room@ + "/"@,
        config.sensor_id@ == sensor_id@,
{
    proof {
        lemma_room_config_names(mqtt_host@, mqtt_port, pin@, room@, slug@, sensor_id@);
    }
    let sid = sensor_id.as_str();
    let device_identifier = concat(concat(slug, "-").as_str(), sid);
    let unique_id = concat(device_identifier.as_str(), "-presence");
    let room_topic = concat(concat("presence/", room).as_str(), "/");
    let state_topic = concat(concat(room_topic.as_str(), sid).as_str(), "/ha_state");
    let config = Config {
        mqtt: MqttConfig {
            host: mqtt_host,
            port: mqtt_port,
            client_id: concat("transmitter-", sid),
            topic: room_topic,
        },
        pin,
        home_assistant: HomeAssistantConfig {
            discovery_topic: concat(
                concat("homeassistant/binary_sensor/", unique_id.as_str()).as_str(),
                "/config",
            ),
            state_topic,
            unique_id,
            entity_name: concat(room, " Presence"),
            device_name: concat(concat(room, " Presence Sensor ").as_str(), sid),
            device_identifier,
        },
        sensor_id,
    };
    proof {
        lemma_room_config_consistent(mqtt_host@, mqtt_port, pin@, room@, slug@, sensor_id@);
    }
    assert(config@ =~= room_config(mqtt_host@, mqtt_port, pin@, room@, slug@, sensor_id@));
    config
}

/// Reads a broker port as `str::parse::<u16>` reads it, with std's error.
pub fn parse_port(port: &str) -> (res: Result<u16, NumberError>)
    ensures
        match res {
            Ok(p) => parse_unsigned(port@, 65535) == Ok::<nat, NumberError>(p as nat),
            Err(e) => parse_unsigned(port@, 65535) == Err::<nat, NumberError>(e),
        },
{
    match parse_unsigned_decimal(port, 65535) {
        Ok(p) => Ok(p as u16),
        Err(e) => Err(e),
    }
}

/// Builds the configuration from the values the environment gives: broker
/// host and port, pin, room name and sensor id. The port must read as a
/// number from 0 to 65535, as `str::parse::<u16>` reads it (see
/// [`parse_port`]); the sensor does not start otherwise.
pub fn build_config(
    mqtt_host: String,
    mqtt_port: &str,
    pin: String,
    room: &str,
    sensor_id: String,
) -> (config: Config)
    requires
        parse_unsigned(mqtt_port@, 65535) is Ok,
    ensures
        config@ == room_config(
            mqtt_host@,
            parse_unsigned(mqtt_port@, 65535)->Ok_0 as u16,
            pin@,
            room@,
            room_slug_of(room@),
            sensor_id@,
        ),
        config_is_consistent(config@),
        parse_unsigned(mqtt_port@, 65535) == Ok::<nat, NumberError>(config.mqtt.port as nat),
        config.home_assistant.device_identifier@ == room_slug_of(room@) + "-"@ + sensor_id@,
        config.home_assistant.unique_id@ == room_slug_of(room@) + "-"@ + sensor_id@
            + "-presence"@,
        config.home_assistant.state_topic@ == "presence/"@ + room@ + "/"@ + sensor_id@
            + "/ha_state"@,
{
    let port = match parse_port(mqtt_port) {
        Ok(p) => p,
        Err(_) => {
            assert(false);
            0
        },
    };
    let slug = room_slug(room);
    config_for_room(mqtt_host, port, pin, room, slug.as_str(), sensor_id)
}

} // verus!
