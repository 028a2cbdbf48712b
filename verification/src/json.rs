use vstd::prelude::*;
use vstd::string::*;
use crate::config::{HomeAssistantConfig, HomeAssistantConfigView};


verus! {

/// The lowercase hexadecimal digit of a value below sixteen.
pub open spec fn hex_digit(n: nat) -> char {
    if n < 10 {
        (n + 48) as char
    } else {
        (n + 87) as char
    }
}

/// How one character stands inside a JSON string: `"` and `\` are
/// escaped with a backslash, backspace, form feed, newline, carriage return
/// and tab by their short escapes, the other control characters below
/// U+0020 as `\u00XX` in lowercase hex; every other character stands as it is.
pub open spec fn json_escape_char(c: char) -> Seq<char> {
    if c == '"' {
        seq!['\\', '"']
    } else if c == '\\' {
        seq!['\\', '\\']
    } else if c == '\u{8}' {
        seq!['\\', 'b']
    } else if c == '\u{c}' {
        seq!['\\', 'f']
    } else if c == '\n' {
        seq!['\\', 'n']
    } else if c == '\r' {
        seq!['\\', 'r']
    } else if c == '\t' {
        seq!['\\', 't']
    } else if (c as u32) < 0x20 {
        seq!['\\', 'u', '0', '0', hex_digit((c as u32 / 16) as nat), hex_digit((c as u32 % 16) as nat)]
    } else {
        seq![c]
    }
}

/// The escaped characters of `s`, one escape after another.
pub open spec fn json_escape(s: Seq<char>) -> Seq<char>
    decreases s.len(),
{
    if s.len() == 0 {
        Seq::empty()
    } else {
        json_escape(s.drop_last()) + json_escape_char(s.last())
    }
}

/// `s` as a JSON string literal: its escaped characters between double quotes.
pub open spec fn json_string(s: Seq<char>) -> Seq<char> {
    seq!['"'] + json_escape(s) + seq!['"']
}

/// `b` as a JSON literal.
pub open spec fn json_bool(b: bool) -> Seq<char> {
    if b {
        "true"@
    } else {
        "false"@
    }
}

#[verifier::external_type_specification]
#[verifier::external_body]
pub struct ExJsonError(serde_json::Error);

/// Calls `serde_json::to_string` on a string slice. What it claims: the
/// call succeeds, and gives `s` as a JSON string literal with the escapes of
/// [`json_escape_char`] (serde_json's `format_escaped_str` with its `ESCAPE`
/// table and lowercase `HEX_DIGITS`).
#[verifier::external_body]
fn serde_json_to_string(s: &str) -> (res: Result<String, serde_json::Error>)
    ensures
        res is Ok,
        res is Ok ==> res->Ok_0@ == json_string(s@),
{
    serde_json::to_string(s)
}

/// `s` written as a JSON string literal, as serde_json writes it.
pub fn json_quote(s: &str) -> (res: String)
    ensures
        res@ == json_string(s@),
{
    match serde_json_to_string(s) {
        Ok(t) => t,
        Err(_) => {
            assert(false);
            String::new()
        },
    }
}

/// The JSON literal of a boolean.
pub fn json_bool_text(b: bool) -> (res: &'static str)
    ensures
        res@ == json_bool(b),
{
    if b {
        "true"
    } else {
        "false"
    }
}

/// Whether `part` occurs in `text` as one contiguous piece.
pub open spec fn contains_text(text: Seq<char>, part: Seq<char>) -> bool {
    exists|i: int|
        0 <= i && i + part.len() <= text.len() && #[trigger] text.subrange(i, i + part.len()) == part
}

proof fn lemma_contains_end(before: Seq<char>, part: Seq<char>)
    ensures
        contains_text(before + part, part),
{
    let text = before + part;
    assert(text.subrange(before.len() as int, (before.len() + part.len()) as int) =~= part);
}

proof fn lemma_contains_middle(before: Seq<char>, part: Seq<char>, after: Seq<char>)
    ensures
        contains_text(before + part + after, part),
{
    let text = before + part + after;
    assert(text.subrange(before.len() as int, (before.len() + part.len()) as int) =~= part);
}

/// The discovery document around the JSON values it holds: the device
/// identifier (inside the identifier list), the device name, the entity
/// name, the state topic and the unique id.
pub open spec fn discovery_text(
    identifiers: Seq<char>,
    device_name: Seq<char>,
    entity_name: Seq<char>,
    state_topic: Seq<char>,
    unique_id: Seq<char>,
) -> Seq<char> {
    "{"@
        + "\"device\":{"@
        + "\"identifiers\":["@
        + identifiers
        + "]"@
        + ","@
        + "\"name\":"@
        + device_name
        + "}"@
        + ","@
        + "\"device_class\":\"occupancy\""@
        + ","@
        + "\"name\":"@
        + entity_name
        + ","@
        + "\"payload_off\":\"OFF\""@
        + ","@
        + "\"payload_on\":\"ON\""@
        + ","@
        + "\"state_topic\":"@
        + state_topic
        + ","@
        + "\"unique_id\":"@
        + unique_id
        + "}"@
}

/// The Home Assistant discovery document of a binary occupancy sensor, as
/// serde_json writes the object: compact, with its keys in sorted order
/// (serde_json's map is sorted unless its `preserve_order` feature is on,
/// which this crate does not turn on).
pub open spec fn discovery_document(c: HomeAssistantConfigView) -> Seq<char> {
    discovery_text(
        json_string(c.device_identifier),
        json_string(c.device_name),
        json_string(c.entity_name),
        json_string(c.state_topic),
        json_string(c.unique_id),
    )
}

proof fn lemma_discovery_text_span_0(
    identifiers: Seq<char>,
    device_name: Seq<char>,
    entity_name: Seq<char>,
    state_topic: Seq<char>,
    unique_id: Seq<char>,
)
    ensures
        contains_text(
            discovery_text(identifiers, device_name, entity_name, state_topic, unique_id),
            "\"identifiers\":["@ + identifiers + "]"@,
        ),
{
    let before = "{"@ + "\"device\":{"@;
    let part = "\"identifiers\":["@ + identifiers + "]"@;
    let after = ","@ + "\"name\":"@ + device_name + "}"@ + ","@ + "\"device_class\":\"occupancy\""@ + ","@ + "\"name\":"@ + entity_name + ","@ + "\"payload_off\":\"OFF\""@ + ","@ + "\"payload_on\":\"ON\""@ + ","@ + "\"state_topic\":"@ + state_topic + ","@ + "\"unique_id\":"@ + unique_id + "}"@;
    assert(discovery_text(identifiers, device_name, entity_name, state_topic, unique_id) =~= before
        + part + after);
    lemma_contains_middle(before, part, after);
}

proof fn lemma_discovery_text_span_1(
    identifiers: Seq<char>,
    device_name: Seq<char>,
    entity_name: Seq<char>,
    state_topic: Seq<char>,
    unique_id: Seq<char>,
)
    ensures
        contains_text(
            discovery_text(identifiers, device_name, entity_name, state_topic, unique_id),
            "\"name\":"@ + device_name + "}"@,
        ),
{
    let before = "{"@ + "\"device\":{"@ + "\"identifiers\":["@ + identifiers + "]"@ + ","@;
    let part = "\"name\":"@ + device_name + "}"@;
    let after = ","@ + "\"device_class\":\"occupancy\""@ + ","@ + "\"name\":"@ + entity_name + ","@ + "\"payload_off\":\"OFF\""@ + ","@ + "\"payload_on\":\"ON\""@ + ","@ + "\"state_topic\":"@ + state_topic + ","@ + "\"unique_id\":"@ + unique_id + "}"@;
    assert(discovery_text(identifiers, device_name, entity_name, state_topic, unique_id) =~= before
        + part + after);
    lemma_contains_middle(before, part, after);
}

proof fn lemma_discovery_text_span_2(
    identifiers: Seq<char>,
    device_name: Seq<char>,
    entity_name: Seq<char>,
    state_topic: Seq<char>,
    unique_id: Seq<char>,
)
    ensures
        contains_text(
            discovery_text(identifiers, device_name, entity_name, state_topic, unique_id),
            "\"device_class\":\"occupancy\""@ + ","@ + "\"name\":"@ + entity_name + ","@,
        ),
{
    let before = "{"@ + "\"device\":{"@ + "\"identifiers\":["@ + identifiers + "]"@ + ","@ + "\"name\":"@ + device_name + "}"@ + ","@;
    let part = "\"device_class\":\"occupancy\""@ + ","@ + "\"name\":"@ + entity_name + ","@;
    let after = "\"payload_off\":\"OFF\""@ + ","@ + "\"payload_on\":\"ON\""@ + ","@ + "\"state_topic\":"@ + state_topic + ","@ + "\"unique_id\":"@ + unique_id + "}"@;
    assert(discovery_text(identifiers, device_name, entity_name, state_topic, unique_id) =~= before
        + part + after);
    lemma_contains_middle(before, part, after);
}

proof fn lemma_discovery_text_span_3(
    identifiers: Seq<char>,
    device_name: Seq<char>,
    entity_name: Seq<char>,
    state_topic: Seq<char>,
    unique_id: Seq<char>,
)
    ensures
        contains_text(
            discovery_text(identifiers, device_name, entity_name, state_topic, unique_id),
            "\"payload_off\":\"OFF\""@,
        ),
{
    let before = "{"@ + "\"device\":{"@ + "\"identifiers\":["@ + identifiers + "]"@ + ","@ + "\"name\":"@ + device_name + "}"@ + ","@ + "\"device_class\":\"occupancy\""@ + ","@ + "\"name\":"@ + entity_name + ","@;
    let part = "\"payload_off\":\"OFF\""@;
    let after = ","@ + "\"payload_on\":\"ON\""@ + ","@ + "\"state_topic\":"@ + state_topic + ","@ + "\"unique_id\":"@ + unique_id + "}"@;
    assert(discovery_text(identifiers, device_name, entity_name, state_topic, unique_id) =~= before
        + part + after);
    lemma_contains_middle(before, part, after);
}

proof fn lemma_discovery_text_span_4(
    identifiers: Seq<char>,
    device_name: Seq<char>,
    entity_name: Seq<char>,
    state_topic: Seq<char>,
    unique_id: Seq<char>,
)
    ensures
        contains_text(
            discovery_text(identifiers, device_name, entity_name, state_topic, unique_id),
            "\"payload_on\":\"ON\""@,
        ),
{
    let before = "{"@ + "\"device\":{"@ + "\"identifiers\":["@ + identifiers + "]"@ + ","@ + "\"name\":"@ + device_name + "}"@ + ","@ + "\"device_class\":\"occupancy\""@ + ","@ + "\"name\":"@ + entity_name + ","@ + "\"payload_off\":\"OFF\""@ + ","@;
    let part = "\"payload_on\":\"ON\""@;
    let after = ","@ + "\"state_topic\":"@ + state_topic + ","@ + "\"unique_id\":"@ + unique_id + "}"@;
    assert(discovery_text(identifiers, device_name, entity_name, state_topic, unique_id) =~= before
        + part + after);
    lemma_contains_middle(before, part, after);
}

proof fn lemma_discovery_text_span_5(
    identifiers: Seq<char>,
    device_name: Seq<char>,
    entity_name: Seq<char>,
    state_topic: Seq<char>,
    unique_id: Seq<char>,
)
    ensures
        contains_text(
            discovery_text(identifiers, device_name, entity_name, state_topic, unique_id),
            ","@ + "\"state_topic\":"@ + state_topic + ","@,
        ),
{
    let before = "{"@ + "\"device\":{"@ + "\"identifiers\":["@ + identifiers + "]"@ + ","@ + "\"name\":"@ + device_name + "}"@ + ","@ + "\"device_class\":\"occupancy\""@ + ","@ + "\"name\":"@ + entity_name + ","@ + "\"payload_off\":\"OFF\""@ + ","@ + "\"payload_on\":\"ON\""@;
    let part = ","@ + "\"state_topic\":"@ + state_topic + ","@;
    let after = "\"unique_id\":"@ + unique_id + "}"@;
    assert(discovery_text(identifiers, device_name, entity_name, state_topic, unique_id) =~= before
        + part + after);
    lemma_contains_middle(before, part, after);
}

proof fn lemma_discovery_text_span_6(
    identifiers: Seq<char>,
    device_name: Seq<char>,
    entity_name: Seq<char>,
    state_topic: Seq<char>,
    unique_id: Seq<char>,
)
    ensures
        contains_text(
            discovery_text(identifiers, device_name, entity_name, state_topic, unique_id),
            ","@ + "\"unique_id\":"@ + unique_id + "}"@,
        ),
{
    let before = "{"@ + "\"device\":{"@ + "\"identifiers\":["@ + identifiers + "]"@ + ","@ + "\"name\":"@ + device_name + "}"@ + ","@ + "\"device_class\":\"occupancy\""@ + ","@ + "\"name\":"@ + entity_name + ","@ + "\"payload_off\":\"OFF\""@ + ","@ + "\"payload_on\":\"ON\""@ + ","@ + "\"state_topic\":"@ + state_topic;
    let part = ","@ + "\"unique_id\":"@ + unique_id + "}"@;
    assert(discovery_text(identifiers, device_name, entity_name, state_topic, unique_id) =~= before
        + part);
    lemma_contains_end(before, part);
}

/// Each value of the discovery document is the matching field of the
/// configuration, taken verbatim and written as a JSON string, under its
/// key: the device identifier in the device's identifier list, the device
/// name as the device's name, the entity name after the device class
/// `occupancy`, the state topic, the unique id; and the payloads are `OFF`
/// and `ON`.
pub proof fn lemma_discovery_document_fields(c: HomeAssistantConfigView)
    ensures
        contains_text(discovery_document(c), "\"identifiers\":["@ + json_string(c.device_identifier) + "]"@),
        contains_text(discovery_document(c), "\"name\":"@ + json_string(c.device_name) + "}"@),
        contains_text(discovery_document(c), "\"device_class\":\"occupancy\""@ + ","@ + "\"name\":"@ + json_string(c.entity_name) + ","@),
        contains_text(discovery_document(c), "\"payload_off\":\"OFF\""@),
        contains_text(discovery_document(c), "\"payload_on\":\"ON\""@),
        contains_text(discovery_document(c), ","@ + "\"state_topic\":"@ + json_string(c.state_topic) + ","@),
        contains_text(discovery_document(c), ","@ + "\"unique_id\":"@ + json_string(c.unique_id) + "}"@),
{
    lemma_discovery_text_span_0(
        json_string(c.device_identifier),
        json_string(c.device_name),
        json_string(c.entity_name),
        json_string(c.state_topic),
        json_string(c.unique_id),
    );
    lemma_discovery_text_span_1(
        json_string(c.device_identifier),
        json_string(c.device_name),
        json_string(c.entity_name),
        json_string(c.state_topic),
        json_string(c.unique_id),
    );
    lemma_discovery_text_span_2(
        json_string(c.device_identifier),
        json_string(c.device_name),
        json_string(c.entity_name),
        json_string(c.state_topic),
        json_string(c.unique_id),
    );
    lemma_discovery_text_span_3(
        json_string(c.device_identifier),
        json_string(c.device_name),
        json_string(c.entity_name),
        json_string(c.state_topic),
        json_string(c.unique_id),
    );
    lemma_discovery_text_span_4(
        json_string(c.device_identifier),
        json_string(c.device_name),
        json_string(c.entity_name),
        json_string(c.state_topic),
        json_string(c.unique_id),
    );
    lemma_discovery_text_span_5(
        json_string(c.device_identifier),
        json_string(c.device_name),
        json_string(c.entity_name),
        json_string(c.state_topic),
        json_string(c.unique_id),
    );
    lemma_discovery_text_span_6(
        json_string(c.device_identifier),
        json_string(c.device_name),
        json_string(c.entity_name),
        json_string(c.state_topic),
        json_string(c.unique_id),
    );
}

/// The document that tells Home Assistant about the sensor: its name,
/// unique id, state topic, the payloads `ON` and `OFF`, the device class
/// `occupancy` and the device it belongs to.
pub fn discovery_payload(config: &HomeAssistantConfig) -> (payload: String)
    ensures
        payload@ == discovery_document(config@),
        contains_text(payload@, "\"identifiers\":["@ + json_string(config@.device_identifier) + "]"@),
        contains_text(payload@, "\"name\":"@ + json_string(config@.device_name) + "}"@),
        contains_text(payload@, "\"device_class\":\"occupancy\""@ + ","@ + "\"name\":"@ + json_string(config@.entity_name) + ","@),
        contains_text(payload@, "\"payload_off\":\"OFF\""@),
        contains_text(payload@, "\"payload_on\":\"ON\""@),
        contains_text(payload@, ","@ + "\"state_topic\":"@ + json_string(config@.state_topic) + ","@),
        contains_text(payload@, ","@ + "\"unique_id\":"@ + json_string(config@.unique_id) + "}"@),
{
    proof {
        lemma_discovery_document_fields(config@);
    }
    let mut s = String::from_str("{");
    s.append("\"device\":{");
    s.append("\"identifiers\":[");
    s.append(json_quote(config.device_identifier.as_str()).as_str());
    s.append("]");
    s.append(",");
    s.append("\"name\":");
    s.append(json_quote(config.device_name.as_str()).as_str());
    s.append("}");
    s.append(",");
    s.append("\"device_class\":\"occupancy\"");
    s.append(",");
    s.append("\"name\":");
    s.append(json_quote(config.entity_name.as_str()).as_str());
    s.append(",");
    s.append("\"payload_off\":\"OFF\"");
    s.append(",");
    s.append("\"payload_on\":\"ON\"");
    s.append(",");
    s.append("\"state_topic\":");
    s.append(json_quote(config.state_topic.as_str()).as_str());
    s.append(",");
    s.append("\"unique_id\":");
    s.append(json_quote(config.unique_id.as_str()).as_str());
    s.append("}");
    assert(s@ =~= discovery_document(config@));
    s
}

/// The presence report of a sensor, as serde_json writes the object with
/// keys `presence`, `sensor_id` and `timestamp`.
pub open spec fn presence_document(
    presence: bool,
    timestamp: Seq<char>,
    sensor_id: Seq<char>,
) -> Seq<char> {
    "{"@ + "\"presence\":"@ + json_bool(presence) + ","@ + "\"sensor_id\":"@ + json_string(sensor_id) + ","@ + "\"timestamp\":"@ + json_string(timestamp) + "}"@
}

/// The presence report opens with the key `presence` whose value is `true`
/// exactly when presence was seen and `false` exactly when it was not,
/// whatever the sensor id and timestamp; it holds the sensor id and the
/// timestamp verbatim as JSON strings under their keys.
pub proof fn lemma_presence_document_fields(presence: bool, timestamp: Seq<char>, sensor_id: Seq<char>)
    ensures
        presence ==> presence_document(presence, timestamp, sensor_id).take(
            ("{"@ + "\"presence\":"@ + "true"@ + ","@).len() as int,
        ) == "{"@ + "\"presence\":"@ + "true"@ + ","@,
        !presence ==> presence_document(presence, timestamp, sensor_id).take(
            ("{"@ + "\"presence\":"@ + "false"@ + ","@).len() as int,
        ) == "{"@ + "\"presence\":"@ + "false"@ + ","@,
        contains_text(
            presence_document(presence, timestamp, sensor_id),
            ","@ + "\"sensor_id\":"@ + json_string(sensor_id) + ","@,
        ),
        contains_text(
            presence_document(presence, timestamp, sensor_id),
            ","@ + "\"timestamp\":"@ + json_string(timestamp) + "}"@,
        ),
{
    let doc = presence_document(presence, timestamp, sensor_id);
    let head = "{"@ + "\"presence\":"@ + json_bool(presence) + ","@;
    assert(doc.take(head.len() as int) =~= head);
    assert(contains_text(doc, ","@ + "\"sensor_id\":"@ + json_string(sensor_id) + ","@)) by {
        lemma_contains_middle(
            "{"@ + "\"presence\":"@ + json_bool(presence),
            ","@ + "\"sensor_id\":"@ + json_string(sensor_id) + ","@,
            "\"timestamp\":"@ + json_string(timestamp) + "}"@,
        );
        assert(doc =~= ("{"@ + "\"presence\":"@ + json_bool(presence)) + (","@ + "\"sensor_id\":"@
            + json_string(sensor_id) + ","@) + ("\"timestamp\":"@ + json_string(timestamp) + "}"@));
    }
    assert(contains_text(doc, ","@ + "\"timestamp\":"@ + json_string(timestamp) + "}"@)) by {
        let before = "{"@ + "\"presence\":"@ + json_bool(presence) + ","@ + "\"sensor_id\":"@
            + json_string(sensor_id);
        let part = ","@ + "\"timestamp\":"@ + json_string(timestamp) + "}"@;
        assert(doc =~= before + part);
        lemma_contains_end(before, part);
    }
}

/// The report that sensor `sensor_id` saw `presence` at `timestamp`.
pub fn presence_payload(presence: bool, timestamp: &str, sensor_id: &str) -> (payload: String)
    ensures
        payload@ == presence_document(presence, timestamp@, sensor_id@),
        presence ==> payload@.take(("{"@ + "\"presence\":"@ + "true"@ + ","@).len() as int) == "{"@
            + "\"presence\":"@ + "true"@ + ","@,
        !presence ==> payload@.take(("{"@ + "\"presence\":"@ + "false"@ + ","@).len() as int)
            == "{"@ + "\"presence\":"@ + "false"@ + ","@,
        contains_text(payload@, ","@ + "\"sensor_id\":"@ + json_string(sensor_id@) + ","@),
        contains_text(payload@, ","@ + "\"timestamp\":"@ + json_string(timestamp@) + "}"@),
{
    proof {
        lemma_presence_document_fields(presence, timestamp@, sensor_id@);
    }
    let mut s = String::from_str("{");
    s.append("\"presence\":");
    s.append(json_bool_text(presence));
    s.append(",");
    s.append("\"sensor_id\":");
    s.append(json_quote(sensor_id).as_str());
    s.append(",");
    s.append("\"timestamp\":");
    s.append(json_quote(timestamp).as_str());
    s.append("}");
    assert(s@ =~= presence_document(presence, timestamp@, sensor_id@));
    s
}

} // verus!
