use gqgmcmqtt::config::{config_file_path, AppConfig, DEFAULT_MQTT_PORT};
use gqgmcmqtt::consts::{
    MPSC_BUFFER_SIZE, MQTT_KEEPALIVE_TIME, MQTT_POLL_INTERVAL_MILLIS,
    MQTT_PROCESSING_PAD_MILLIS, MQTT_THREAD_CHANNEL_CAPACITY, POLL_TIME,
};
use gqgmcmqtt::errors::{FatalError, FATAL_EXIT_CODE};

#[test]
fn scenario_config_with_address_and_port_only() {
    let c = AppConfig {
        mqtt_client_id: None,
        mqtt_server_addr: "localhost".to_string(),
        mqtt_server_port: Some(1883),
        mqtt_username: None,
        mqtt_password: None,
    };
    assert_eq!(c.client_id(), "sunspec_gateway");
    assert_eq!(c.server_port(), 1883);
}

#[test]
fn missing_settings_fall_back_to_the_defaults() {
    let c = AppConfig::default();
    assert_eq!(c.client_id(), "sunspec_gateway");
    assert_eq!(c.server_port(), 1883);
    assert_eq!(DEFAULT_MQTT_PORT, 1883);
    assert_eq!(c.mqtt_server_addr, "");
    assert!(c.mqtt_username.is_none() && c.mqtt_password.is_none());
}

#[test]
fn configured_settings_win_over_the_defaults() {
    let c = AppConfig {
        mqtt_client_id: Some("geiger".to_string()),
        mqtt_server_addr: "broker.lan".to_string(),
        mqtt_server_port: Some(8883),
        mqtt_username: Some("u".to_string()),
        mqtt_password: Some("p".to_string()),
    };
    assert_eq!(c.client_id(), "geiger");
    assert_eq!(c.server_port(), 8883);
}

#[test]
fn settings_file_path_comes_from_the_environment_or_the_default() {
    assert_eq!(config_file_path(None), "./config.yaml");
    assert_eq!(config_file_path(Some("/etc/geiger.yaml".to_string())), "/etc/geiger.yaml");
    assert_eq!(config_file_path(Some(String::new())), "");
}

#[test]
fn every_fatal_condition_exits_with_status_one() {
    let all = vec![
        FatalError::ConfigRead("a".to_string()),
        FatalError::ConfigParse("b".to_string()),
        FatalError::MqttConnect("c".to_string()),
        FatalError::InstrumentConnect("d".to_string()),
        FatalError::ChannelClosed("e".to_string()),
    ];
    for e in all {
        assert_eq!(e.exit_code(), 1);
    }
    assert_eq!(FATAL_EXIT_CODE, 1);
}

#[test]
fn diagnostic_lines() {
    assert_eq!(
        FatalError::ConfigRead("No such file".to_string()).diagnostic(),
        "Can't read config file: No such file"
    );
    assert_eq!(
        FatalError::ConfigParse("missing field".to_string()).diagnostic(),
        "Couldn't deserialize AppConfig: missing field"
    );
    assert_eq!(
        FatalError::MqttConnect("refused".to_string()).diagnostic(),
        "Couldn't create mqtt connection object: {e}"
    );
    assert_eq!(
        FatalError::InstrumentConnect("no port".to_string()).diagnostic(),
        "Can't connect to unit.: no port"
    );
    assert_eq!(FatalError::ChannelClosed("channel closed".to_string()).diagnostic(), "channel closed");
}

#[test]
fn duplicate_of_a_fatal_condition_is_the_same_condition() {
    let e = FatalError::ConfigParse("x".to_string());
    match e.duplicate() {
        FatalError::ConfigParse(d) => assert_eq!(d, "x"),
        other => panic!("another condition came back: {:?}", other),
    }
}

#[test]
fn constants_of_the_pipeline() {
    assert_eq!(MQTT_KEEPALIVE_TIME, 5);
    assert_eq!(MQTT_THREAD_CHANNEL_CAPACITY, 10);
    assert_eq!(MQTT_POLL_INTERVAL_MILLIS, 100);
    assert_eq!(MQTT_PROCESSING_PAD_MILLIS, 2000);
    assert_eq!(MPSC_BUFFER_SIZE, 100);
    assert_eq!(POLL_TIME, 5);
}
