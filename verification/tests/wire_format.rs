use gqgmcmqtt::clock::Timestamp;
use gqgmcmqtt::document::{JsonValue, Member};
use gqgmcmqtt::payload::{
    discovery_payload, EntityCategory, HAConfigPayload, Payload, PayloadValueType, StatePayload,
};
use std::collections::HashMap;

fn members(v: JsonValue) -> Vec<Member> {
    match v {
        JsonValue::Object(m) => m,
        other => panic!("expected an object, got {:?}", other),
    }
}

fn keys(m: &[Member]) -> Vec<String> {
    m.iter().map(|x| x.key.clone()).collect()
}

fn holds_null(v: &JsonValue) -> bool {
    match v {
        JsonValue::Null => true,
        JsonValue::List(items) => items.iter().any(holds_null),
        JsonValue::Object(m) => m.iter().any(|x| holds_null(&x.value)),
        _ => false,
    }
}

fn text(v: &JsonValue) -> String {
    match v {
        JsonValue::Text(t) => t.clone(),
        other => panic!("expected a text, got {:?}", other),
    }
}

#[test]
fn blank_discovery_document_has_only_the_required_members() {
    let doc = HAConfigPayload::default().document();
    assert!(!holds_null(&doc));
    assert_eq!(
        keys(&members(doc)),
        vec!["name", "device", "unique_id", "entity_id", "state_topic", "expires_after"]
    );
}

#[test]
fn built_discovery_document_omits_unset_fields() {
    let doc = discovery_payload(&"GMC-500".to_string(), &"12345".to_string()).document();
    assert!(!holds_null(&doc));
    let m = members(doc);
    assert_eq!(
        keys(&m),
        vec![
            "name",
            "device",
            "unique_id",
            "entity_id",
            "state_topic",
            "expires_after",
            "state_class",
            "unit_of_measurement",
            "value_template",
            "suggested_display_precision",
            "icon",
        ]
    );
    assert_eq!(text(&m[0].value), "GMC-500-12345");
    assert!(matches!(m[5].value, JsonValue::UInt(300)));
    assert_eq!(text(&m[6].value), "measurement");
    assert_eq!(text(&m[7].value), "cpm");
    assert_eq!(text(&m[8].value), "{{ value_json.value }}");
    assert!(matches!(m[9].value, JsonValue::UInt(0)));
    assert_eq!(text(&m[10].value), "mdi:radioactive");
}

#[test]
fn device_entry_is_nested_in_field_order() {
    let doc = discovery_payload(&"GMC-500".to_string(), &"12345".to_string()).document();
    let mut m = members(doc);
    let device = members(m.remove(1).value);
    assert_eq!(keys(&device), vec!["identifiers", "manufacturer", "name", "model", "sw_version"]);
    match &device[0].value {
        JsonValue::List(items) => {
            assert_eq!(items.len(), 1);
            assert_eq!(text(&items[0]), "12345");
        }
        other => panic!("expected a list, got {:?}", other),
    }
    assert_eq!(text(&device[1].value), "GQ Electronics");
    assert_eq!(text(&device[2].value), "GQ Geiger Counter");
    assert_eq!(text(&device[3].value), "GMC-500");
    assert_eq!(text(&device[4].value), "");
}

#[test]
fn every_optional_field_appears_when_set() {
    let mut attributes = HashMap::new();
    attributes.insert("k".to_string(), "v".to_string());
    let mut c = HAConfigPayload::default();
    c.entity_category = Some(EntityCategory::Config);
    c.command_topic = Some("cmd".to_string());
    c.payload_on = Some("ON".to_string());
    c.payload_off = Some("OFF".to_string());
    c.state_class = Some("measurement".to_string());
    c.device_class = Some("power".to_string());
    c.native_uom = Some("W".to_string());
    c.options = Some(vec!["a".to_string(), "b".to_string()]);
    c.value_template = Some("{{ x }}".to_string());
    c.suggested_display_precision = Some(2);
    c.assumed_state = Some(true);
    c.attribution = Some("me".to_string());
    c.available = Some(false);
    c.entity_picture = Some("pic".to_string());
    c.extra_state_attributes = Some(attributes);
    c.has_entity_name = Some(true);
    c.should_poll = Some(false);
    c.translation_key = Some("key".to_string());
    c.payload_press = Some("PRESS".to_string());
    c.min = Some(-5);
    c.max = Some(5);
    c.mode = Some("box".to_string());
    c.step = Some(1);
    c.icon = Some("mdi:x".to_string());
    let doc = c.document();
    assert!(!holds_null(&doc));
    let m = members(doc);
    assert_eq!(
        keys(&m),
        vec![
            "name",
            "device",
            "unique_id",
            "entity_id",
            "state_topic",
            "expires_after",
            "entity_category",
            "command_topic",
            "payload_on",
            "payload_off",
            "state_class",
            "device_class",
            "unit_of_measurement",
            "options",
            "value_template",
            "suggested_display_precision",
            "assumed_state",
            "attribution",
            "available",
            "entity_picture",
            "extra_state_attributes",
            "has_entity_name",
            "should_poll",
            "translation_key",
            "payload_press",
            "min",
            "max",
            "mode",
            "step",
            "icon",
        ]
    );
    assert_eq!(text(&m[6].value), "config");
    match &m[13].value {
        JsonValue::List(items) => {
            assert_eq!(items.iter().map(text).collect::<Vec<_>>(), vec!["a", "b"])
        }
        other => panic!("expected a list, got {:?}", other),
    }
    assert!(matches!(m[15].value, JsonValue::UInt(2)));
    assert!(matches!(m[16].value, JsonValue::Bool(true)));
    assert!(matches!(m[18].value, JsonValue::Bool(false)));
    match &m[20].value {
        JsonValue::Table(t) => assert_eq!(t.get("k").map(String::as_str), Some("v")),
        other => panic!("expected a table, got {:?}", other),
    }
    assert!(matches!(m[25].value, JsonValue::Int(-5)));
    assert!(matches!(m[26].value, JsonValue::Int(5)));
    assert!(matches!(m[28].value, JsonValue::Int(1)));
}

#[test]
fn diagnostic_category_is_written_in_lower_case() {
    let mut c = HAConfigPayload::default();
    c.entity_category = Some(EntityCategory::Diagnostic);
    let m = members(c.document());
    assert_eq!(m[6].key, "entity_category");
    assert_eq!(text(&m[6].value), "diagnostic");
}

#[test]
fn single_set_field_adds_a_single_member() {
    let mut c = HAConfigPayload::default();
    c.icon = Some("mdi:y".to_string());
    let m = members(c.document());
    assert_eq!(m.len(), 7);
    assert_eq!(m[6].key, "icon");
}

#[test]
fn state_document_has_value_and_time_and_set_remarks_only() {
    let at = Timestamp { secs: 1_700_000_000, nanos: 5 };
    let mut s = StatePayload::empty_at(at);
    s.value = PayloadValueType::Int(42);
    let m = members(s.document());
    assert_eq!(keys(&m), vec!["value", "last_seen"]);
    assert!(matches!(m[0].value, JsonValue::Int(42)));
    match m[1].value {
        JsonValue::Time(t) => assert_eq!(t, at),
        ref other => panic!("expected an instant, got {:?}", other),
    }
    s.label = Some("l".to_string());
    s.description = Some("d".to_string());
    s.notes = Some("n".to_string());
    let m = members(s.document());
    assert_eq!(keys(&m), vec!["value", "label", "description", "notes", "last_seen"]);
    assert_eq!(text(&m[1].value), "l");
    assert_eq!(text(&m[2].value), "d");
    assert_eq!(text(&m[3].value), "n");
}

#[test]
fn measured_values_are_written_bare() {
    let at = Timestamp { secs: 0, nanos: 0 };
    let mut s = StatePayload::empty_at(at);
    assert!(matches!(members(s.document())[0].value, JsonValue::Null));
    s.value = PayloadValueType::Boolean(true);
    assert!(matches!(members(s.document())[0].value, JsonValue::Bool(true)));
    s.value = PayloadValueType::String("high".to_string());
    assert_eq!(text(&members(s.document())[0].value), "high");
    s.value = PayloadValueType::Float(1.5f32.to_bits());
    match members(s.document())[0].value {
        JsonValue::Float(bits) => assert_eq!(f32::from_bits(bits), 1.5),
        ref other => panic!("expected a number, got {:?}", other),
    }
    s.value = PayloadValueType::Int(-9);
    assert!(matches!(members(s.document())[0].value, JsonValue::Int(-9)));
}

#[test]
fn payload_is_written_without_a_tag() {
    let config = Payload::Config(HAConfigPayload::default());
    assert_eq!(members(config.document())[0].key, "name");
    let state = Payload::CurrentState(StatePayload::empty_at(Timestamp { secs: 0, nanos: 0 }));
    assert_eq!(members(state.document())[0].key, "value");
    assert!(matches!(Payload::Empty.document(), JsonValue::Null));
}
