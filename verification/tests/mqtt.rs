use gantry_crane::mqtt::{
    availability_message, availability_topic, broker_uri, disconnect_message, last_will, online_message, MqttMessage, TopicTracker,
};
use gantry_crane::settings::{map_env_key, Settings};
use gantry_crane::text::decimal_string;

#[test]
fn test_availability_topic() {
    let mut settings = Settings::default();
    settings.mqtt.base_topic = "test/base".into();
    assert_eq!(availability_topic(&settings), format!("test/base/{}", "availability"));
}

#[test]
fn message_new_keeps_fields() {
    let msg = MqttMessage::new("test/topic".into(), "[{\"test\": true}]".into(), true, 2);
    assert_eq!(msg.topic, "test/topic");
    assert_eq!(msg.payload, "[{\"test\": true}]");
    assert!(msg.retained);
    assert_eq!(msg.qos, 2);
    assert_eq!(msg.duplicate(), msg);
}

#[test]
fn broker_uri_depends_on_tls() {
    let mut settings = Settings::default();
    assert_eq!(broker_uri(&settings), "tcp://localhost:1883");
    settings.mqtt.tls_encryption = true;
    settings.mqtt.host = "mqtt.example.com".into();
    settings.mqtt.port = 8883;
    assert_eq!(broker_uri(&settings), "ssl://mqtt.example.com:8883");
    settings.mqtt.port = 0;
    assert_eq!(broker_uri(&settings), "ssl://mqtt.example.com:0");
}

#[test]
fn broker_uri_uses_websockets_when_configured() {
    let mut settings = Settings::default();
    settings.mqtt.websocket = true;
    assert_eq!(broker_uri(&settings), "ws://localhost:1883");
    settings.mqtt.tls_encryption = true;
    settings.mqtt.port = 443;
    assert_eq!(broker_uri(&settings), "wss://localhost:443");
}

#[test]
fn disconnect_messages_clear_or_go_offline() {
    let settings = Settings::default();
    let clean = disconnect_message(&settings, true);
    assert_eq!(clean.topic, "gantry-crane/availability");
    assert_eq!(clean.payload, "");
    assert!(clean.retained);
    assert_eq!(clean.qos, 1);
    let shutdown = disconnect_message(&settings, false);
    assert_eq!(shutdown.topic, "gantry-crane/availability");
    assert_eq!(shutdown.payload, "offline");
    assert!(shutdown.retained);
    assert_eq!(shutdown.qos, 1);
}

#[test]
fn decimal_strings() {
    assert_eq!(decimal_string(0), "0");
    assert_eq!(decimal_string(7), "7");
    assert_eq!(decimal_string(65535), "65535");
    assert_eq!(decimal_string(u64::MAX), u64::MAX.to_string());
}

#[test]
fn availability_messages() {
    let settings = Settings::default();
    let will = last_will(&settings);
    assert_eq!((will.topic.as_str(), will.payload.as_str(), will.retained, will.qos), ("gantry-crane/availability", "offline", true, 1));
    let online = online_message(&settings);
    assert_eq!((online.topic.as_str(), online.payload.as_str(), online.retained, online.qos), ("gantry-crane/availability", "online", true, 0));
    assert_eq!(availability_message(&settings, None).payload, "");
    assert_eq!(availability_message(&settings, Some(true)).payload, "online");
    assert_eq!(availability_message(&settings, Some(false)).payload, "offline");
    assert_eq!(availability_message(&settings, Some(false)).qos, 1);
}

#[test]
fn tracker_suppresses_own_topics_and_resubscribes() {
    let mut tracker = TopicTracker::new();
    assert!(tracker.should_forward("gantry-crane/web"));
    assert!(tracker.resubscription().is_none());
    tracker.record_published("gantry-crane/web");
    assert!(!tracker.should_forward("gantry-crane/web"));
    assert!(tracker.should_forward("gantry-crane/web/set"));
    tracker.record_subscribed("gantry-crane/#".into());
    tracker.record_subscribed("homeassistant/+/gantry-crane/+/config".into());
    let (topics, qos) = tracker.resubscription().unwrap();
    assert_eq!(topics, vec!["gantry-crane/#".to_string(), "homeassistant/+/gantry-crane/+/config".to_string()]);
    assert_eq!(qos, vec![0, 0]);
}

#[test]
fn settings_default() {
    let settings = Settings::default();
    assert_eq!(settings.poll_interval, 60);
    assert!(!settings.filter_by_label);
    assert_eq!(settings.mqtt.host, "localhost");
    assert_eq!(settings.mqtt.port, 1883);
    assert_eq!(settings.mqtt.client_id, "gantry-crane");
    assert_eq!(settings.mqtt.base_topic, "gantry-crane");
    assert_eq!(settings.mqtt.username, None);
    assert!(!settings.homeassistant.active);
    assert_eq!(settings.homeassistant.base_topic, "homeassistant");
    assert_eq!(settings.homeassistant.node_id, "gantry-crane");
}

#[test]
fn env_keys_map_to_sections() {
    assert_eq!(map_env_key("MQTT_HOST"), "mqtt.host");
    assert_eq!(map_env_key("MQTT_CLIENT_ID"), "mqtt.client_id");
    assert_eq!(map_env_key("mqtt_base_topic"), "mqtt.base_topic");
    assert_eq!(map_env_key("HOMEASSISTANT_ACTIVE"), "homeassistant.active");
    assert_eq!(map_env_key("HomeAssistant_Node_Id"), "homeassistant.node_id");
    assert_eq!(map_env_key("POLL_INTERVAL"), "POLL_INTERVAL");
    assert_eq!(map_env_key("FILTER_BY_LABEL"), "FILTER_BY_LABEL");
    assert_eq!(map_env_key("MQTT"), "MQTT");
    // Every occurrence of the prefix becomes a section separator
    assert_eq!(map_env_key("MQTT_MQTT_X"), "mqtt.mqtt.x");
}
