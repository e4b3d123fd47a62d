use gqgmcmqtt::clock::Timestamp;
use gqgmcmqtt::payload::{
    device_info, discovery_payload, generate_payloads, payloads_at, DeviceInfo, EntityCategory,
    HAConfigPayload, InstrumentReading, Payload, PayloadValueType, StatePayload,
};

fn reading(model: &str, serial: &str, cpm: u32) -> InstrumentReading {
    InstrumentReading { model: model.to_string(), serial: serial.to_string(), cpm }
}

#[test]
fn scenario_gmc_500_reading_of_42() {
    let at = Timestamp { secs: 1_700_000_000, nanos: 250 };
    let out = payloads_at(&reading("GMC-500", "12345", 42), at);
    assert_eq!(out.len(), 1);
    let pair = &out[0];
    assert_eq!(pair.config_topic, "homeassistant/sensor/12345/geiger_counter_cpm/config");
    assert_eq!(pair.state_topic, "gqgmcmqtt/12345/geiger_counter_cpm");
    assert!(matches!(pair.state.value, PayloadValueType::Int(42)));
    assert_eq!(pair.config.unique_id, "GMC-500-12345");
    assert_eq!(pair.config.entity_id, "sensor.12345_geiger_tube_cpm");
    assert_eq!(pair.state.last_seen, at);
}

#[test]
fn discovery_document_carries_the_fixed_metadata() {
    let c = discovery_payload(&"GMC-500".to_string(), &"12345".to_string());
    assert_eq!(c.name, "GMC-500-12345");
    assert_eq!(c.state_topic, "gqgmcmqtt/12345/geiger_counter_cpm");
    assert_eq!(c.expires_after, 300);
    assert_eq!(c.state_class.as_deref(), Some("measurement"));
    assert_eq!(c.native_uom.as_deref(), Some("cpm"));
    assert_eq!(c.value_template.as_deref(), Some("{{ value_json.value }}"));
    assert_eq!(c.suggested_display_precision, Some(0));
    assert_eq!(c.icon.as_deref(), Some("mdi:radioactive"));
    assert!(c.device_class.is_none());
    assert!(c.entity_category.is_none());
    assert!(c.command_topic.is_none());
    assert!(c.options.is_none());
    assert!(c.extra_state_attributes.is_none());
    assert!(c.min.is_none() && c.max.is_none() && c.step.is_none() && c.mode.is_none());
}

#[test]
fn device_entry_names_the_unit() {
    let d = device_info(&"GMC-500".to_string(), &"12345".to_string());
    assert_eq!(d.identifiers, vec!["12345".to_string()]);
    assert_eq!(d.manufacturer, "GQ Electronics");
    assert_eq!(d.name, "GQ Geiger Counter");
    assert_eq!(d.model, "GMC-500");
    assert_eq!(d.sw_version, "");
}

#[test]
fn state_payload_holds_only_the_count() {
    let at = Timestamp { secs: 5, nanos: 6 };
    let out = payloads_at(&reading("GMC-320", "A1", 4_000_000_000), at);
    let state = &out[0].state;
    assert!(matches!(state.value, PayloadValueType::Int(4_000_000_000)));
    assert!(state.label.is_none() && state.description.is_none() && state.notes.is_none());
}

#[test]
fn zero_count_yields_nothing() {
    let at = Timestamp { secs: 1, nanos: 0 };
    assert!(payloads_at(&reading("GMC-500", "12345", 0), at).is_empty());
    assert!(generate_payloads(&reading("GMC-500", "12345", 0)).is_empty());
}

#[test]
fn count_of_one_yields_one_pair() {
    let out = generate_payloads(&reading("GMC-500", "12345", 1));
    assert_eq!(out.len(), 1);
    assert!(matches!(out[0].state.value, PayloadValueType::Int(1)));
}

#[test]
fn topics_depend_on_the_serial_alone() {
    let a = payloads_at(&reading("GMC-500", "777", 10), Timestamp { secs: 1, nanos: 0 });
    let b = payloads_at(&reading("GMC-600", "777", 99), Timestamp { secs: 2, nanos: 0 });
    assert_eq!(a[0].config_topic, b[0].config_topic);
    assert_eq!(a[0].state_topic, b[0].state_topic);
    assert_eq!(a[0].config.state_topic, a[0].state_topic);
    assert_ne!(a[0].config.unique_id, b[0].config.unique_id);
}

#[test]
fn same_unit_gets_the_same_discovery_document() {
    let a = payloads_at(&reading("GMC-500", "12345", 10), Timestamp { secs: 1, nanos: 0 });
    let b = payloads_at(&reading("GMC-500", "12345", 11), Timestamp { secs: 9, nanos: 0 });
    assert_eq!(format!("{:?}", a[0].config), format!("{:?}", b[0].config));
}

#[test]
fn empty_serial_still_gives_well_formed_topics() {
    let out = payloads_at(&reading("", "", 3), Timestamp { secs: 0, nanos: 0 });
    assert_eq!(out[0].config_topic, "homeassistant/sensor//geiger_counter_cpm/config");
    assert_eq!(out[0].state_topic, "gqgmcmqtt//geiger_counter_cpm");
    assert_eq!(out[0].config.unique_id, "-");
    assert_eq!(out[0].config.entity_id, "sensor._geiger_tube_cpm");
}

#[test]
fn generated_payload_is_stamped_with_the_present() {
    let out = generate_payloads(&reading("GMC-500", "12345", 42));
    assert!(out[0].state.last_seen.secs > 1_600_000_000);
    assert!(out[0].state.last_seen.nanos < 2_000_000_000);
}

#[test]
fn default_state_payload_is_blank_and_stamped() {
    let s = StatePayload::default();
    assert!(matches!(s.value, PayloadValueType::Null));
    assert!(s.label.is_none() && s.description.is_none() && s.notes.is_none());
    assert!(s.last_seen.secs > 1_600_000_000);
}

#[test]
fn empty_state_payload_keeps_the_given_instant() {
    let at = Timestamp { secs: -3, nanos: 17 };
    let s = StatePayload::empty_at(at);
    assert!(matches!(s.value, PayloadValueType::Null));
    assert_eq!(s.last_seen, at);
}

#[test]
fn defaults_are_blank() {
    let d = DeviceInfo::default();
    assert!(d.identifiers.is_empty());
    assert_eq!(d.manufacturer, "");
    let c = HAConfigPayload::default();
    assert_eq!(c.name, "");
    assert_eq!(c.expires_after, 0);
    assert!(c.icon.is_none() && c.state_class.is_none());
    assert!(matches!(Payload::default(), Payload::Empty));
    assert!(matches!(PayloadValueType::default(), PayloadValueType::Null));
    assert_eq!(EntityCategory::default(), EntityCategory::Diagnostic);
}
