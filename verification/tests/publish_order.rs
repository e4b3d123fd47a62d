use gqgmcmqtt::clock::Timestamp;
use gqgmcmqtt::ipc::{cycle_requests, publish_requests, IPCMessage};
use gqgmcmqtt::payload::{payloads_at, InstrumentReading, Payload, PayloadValueType};

fn pair_for(serial: &str, cpm: u32) -> gqgmcmqtt::payload::CompoundPayload {
    let reading =
        InstrumentReading { model: "GMC-500".to_string(), serial: serial.to_string(), cpm };
    payloads_at(&reading, Timestamp { secs: 10, nanos: 0 }).remove(0)
}

fn topic_of(m: &IPCMessage) -> String {
    match m {
        IPCMessage::Outbound(p) => p.topic.clone(),
        IPCMessage::Inbound(p) => p.topic.clone(),
    }
}

#[test]
fn discovery_request_comes_before_state_request() {
    let (first, second) = publish_requests(pair_for("12345", 42));
    match first {
        IPCMessage::Outbound(p) => {
            assert_eq!(p.topic, "homeassistant/sensor/12345/geiger_counter_cpm/config");
            assert!(matches!(p.payload, Payload::Config(_)));
        }
        IPCMessage::Inbound(_) => panic!("the discovery request goes towards the broker"),
    }
    match second {
        IPCMessage::Outbound(p) => {
            assert_eq!(p.topic, "gqgmcmqtt/12345/geiger_counter_cpm");
            match p.payload {
                Payload::CurrentState(s) => assert!(matches!(s.value, PayloadValueType::Int(42))),
                _ => panic!("the second request carries the state"),
            }
        }
        IPCMessage::Inbound(_) => panic!("the state request goes towards the broker"),
    }
}

#[test]
fn cycle_requests_keep_pairs_together_and_in_order() {
    let out = cycle_requests(vec![pair_for("1", 5), pair_for("2", 6), pair_for("3", 7)]);
    let topics: Vec<String> = out.iter().map(topic_of).collect();
    assert_eq!(
        topics,
        vec![
            "homeassistant/sensor/1/geiger_counter_cpm/config".to_string(),
            "gqgmcmqtt/1/geiger_counter_cpm".to_string(),
            "homeassistant/sensor/2/geiger_counter_cpm/config".to_string(),
            "gqgmcmqtt/2/geiger_counter_cpm".to_string(),
            "homeassistant/sensor/3/geiger_counter_cpm/config".to_string(),
            "gqgmcmqtt/3/geiger_counter_cpm".to_string(),
        ]
    );
}

#[test]
fn no_pairs_give_no_requests() {
    assert!(cycle_requests(Vec::new()).is_empty());
}
