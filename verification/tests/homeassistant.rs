use std::sync::Arc;

use gantry_crane::events::{ContainerEventInfo, Event};
use gantry_crane::homeassistant::button::Button;
use gantry_crane::homeassistant::container::HomeAssistantContainer;
use gantry_crane::homeassistant::device::Device;
use gantry_crane::homeassistant::entity::{Entity, StateClass};
use gantry_crane::homeassistant::sensor::Sensor;
use gantry_crane::homeassistant::{HaAction, HomeAssistantIntegration};
use gantry_crane::mqtt::MqttMessage;
use gantry_crane::settings::Settings;

fn test_button(dev: Device) -> Button {
    Button {
        name: "Test Button".into(),
        availability_topic: None,
        command_topic: "".into(),
        device: Arc::new(dev),
        device_class: None,
        enabled_by_default: None,
        entity_category: None,
        icon: None,
        object_id: None,
        payload_available: None,
        payload_not_available: None,
        payload_press: "test".into(),
        retain: None,
        unique_id: None,
    }
}

fn test_sensor(dev: Device) -> Sensor {
    Sensor {
        name: "Test Button".into(),
        state_topic: "".into(),
        availability_topic: None,
        device: Arc::new(dev),
        enabled_by_default: None,
        entity_category: None,
        expire_after: None,
        force_update: None,
        icon: None,
        object_id: None,
        payload_available: None,
        payload_not_available: None,
        state_class: None,
        unique_id: None,
        unit_of_measurement: None,
        value_template: None,
    }
}

#[test]
fn button_test_device_topic() {
    let dev = Device::new("Test Device".into(), None);
    let btn = test_button(dev);
    assert_eq!(btn.get_device_topic(), "test_device");
}

#[test]
fn button_test_entity() {
    let dev = Device::new("Test Device".into(), None);
    let btn = test_button(dev);
    let topic = btn.topic("base/topic", "node_id");
    assert_eq!(topic, "base/topic/button/node_id/test_device__test_button/config");
}

#[test]
fn sensor_test_device_topic() {
    let dev = Device::new("Test Device".into(), None);
    let sensor = test_sensor(dev);
    assert_eq!(sensor.get_device_topic(), "test_device");
}

#[test]
fn sensor_test_entity() {
    let dev = Device::new("Test Device".into(), None);
    let sensor = test_sensor(dev);
    let topic = sensor.topic("base/topic", "node_id");
    assert_eq!(topic, "base/topic/sensor/node_id/test_device__test_button/config");
}

#[test]
fn device_test_new() {
    let name = "Test Device".to_owned();
    let manufacturer = Some("Test Manufacturer".to_owned());
    let dev = Device::new(name.clone(), manufacturer.clone());

    assert_eq!(dev.name, name);
    assert_eq!(dev.manufacturer, manufacturer);
    assert_eq!(dev.identifiers.len(), 1);
    assert!(!dev.identifiers[0].contains(" "));
}

#[test]
fn device_identifier_replaces_spaces() {
    let dev = Device::new("My Nice Container".into(), Some("Docker".into()));
    assert_eq!(dev.identifiers, vec!["gc_My_Nice_Container".to_string()]);
    assert_eq!(dev.model, None);
    assert_eq!(dev.sw_version, None);
}

fn new_ha_container(host: bool) -> HomeAssistantContainer {
    HomeAssistantContainer::new(
        Arc::new(Settings::default()),
        &ContainerEventInfo { name: "/Container Name".into(), is_host_networking: host },
        "node_id".into(),
    )
}

#[test]
fn container_test_new() {
    let container = new_ha_container(false);
    assert_eq!(container.device.name, "Container Name");
    assert_eq!(container.sensors.len(), 10);
    assert_eq!(container.buttons.len(), 7);
}

#[test]
fn host_networking_container_has_no_network_sensors() {
    let container = new_ha_container(true);
    assert_eq!(container.sensors.len(), 8);
    assert!(container.sensors.iter().all(|s| !s.name.starts_with("Net")));
    assert_eq!(container.buttons.len(), 7);
}

#[test]
fn sensor_fields() {
    let container = new_ha_container(false);
    let cpu = &container.sensors[3];
    assert_eq!(cpu.name, "CPU Percentage");
    assert_eq!(cpu.state_topic, "gantry-crane/Container Name");
    assert_eq!(cpu.availability_topic.as_deref(), Some("gantry-crane/availability"));
    assert_eq!(cpu.object_id.as_deref(), Some("Container Name_cpu"));
    assert_eq!(cpu.unique_id.as_deref(), Some("gc_Container Name_cpu"));
    assert_eq!(cpu.unit_of_measurement.as_deref(), Some("%"));
    assert_eq!(cpu.state_class, Some(StateClass::Measurement));
    assert_eq!(cpu.value_template.as_deref(), Some("{{ value_json['cpu_percentage'] }}"));
    assert_eq!(cpu.enabled_by_default, Some(true));
    assert_eq!(cpu.icon.as_deref(), Some("mdi:cpu-64-bit"));
}

#[test]
fn button_fields() {
    let container = new_ha_container(false);
    let pull = &container.buttons[6];
    assert_eq!(pull.name, "Pull and Recreate");
    assert_eq!(pull.command_topic, "gantry-crane/Container Name/set");
    assert_eq!(pull.payload_press, "pull_recreate");
    assert_eq!(pull.enabled_by_default, Some(false));
    assert_eq!(pull.unique_id.as_deref(), Some("gc_Container Name_pull_recreate"));
    assert_eq!(
        pull.topic("homeassistant", "node_id"),
        "homeassistant/button/node_id/container_name__pull_and_recreate/config"
    );
}

#[test]
fn container_test_publish() {
    let container = new_ha_container(false);
    let payloads: Vec<String> = (0..container.entity_count()).map(|i| format!("{{\"n\":{}}}", i)).collect();
    let msgs = container.publish(&payloads);
    assert_eq!(msgs.len(), 17);
    assert_eq!(msgs[0].topic, "homeassistant/sensor/node_id/container_name__image/config");
    assert_eq!(msgs[0].payload, "{\"n\":0}");
    assert!(msgs[0].retained);
    assert_eq!(msgs[0].qos, 1);
    assert_eq!(msgs[16].topic, "homeassistant/button/node_id/container_name__pull_and_recreate/config");
}

#[test]
fn container_test_unpublish() {
    let container = new_ha_container(false);
    let msgs = container.unpublish();
    assert_eq!(msgs.len(), 17);
    assert!(msgs.iter().all(|m| m.payload.is_empty() && m.retained && m.qos == 1));
}

#[test]
fn test_publish_entity() {
    let container = new_ha_container(false);
    let entity = &container.sensors[0];
    let msg = container.publish_entity(entity, "{\"name\":\"Image\"}".into());
    assert_ne!(msg.payload.len(), 0);
    assert_eq!(msg.topic, "homeassistant/sensor/node_id/container_name__image/config");
}

#[test]
fn test_unpublish_entity() {
    let container = new_ha_container(false);
    let entity = &container.sensors[0];
    let msg = container.unpublish_entity(entity);
    assert_eq!(msg.payload.len(), 0);
}

#[test]
fn withdrawal_clears_announced_topics() {
    let container = new_ha_container(true);
    let payloads: Vec<String> = vec!["x".to_string(); container.entity_count()];
    let announced = container.publish(&payloads);
    let withdrawn = container.unpublish();
    assert_eq!(announced.len(), 15);
    for (a, w) in announced.iter().zip(withdrawn.iter()) {
        assert_eq!(a.topic, w.topic);
    }
}

#[test]
fn integration_handles_container_lifecycle() {
    let mut ha = HomeAssistantIntegration::new(Arc::new(Settings::default()));
    assert_eq!(ha.subscription_topic(), "homeassistant/+/gantry-crane/+/config");

    let info = ContainerEventInfo { name: "/web".into(), is_host_networking: false };
    match ha.handle_event(Event::ContainerCreated(info.clone())) {
        HaAction::PublishDiscovery(name) => assert_eq!(name, "/web"),
        _ => panic!("expected discovery"),
    }
    assert!(ha.get("/web").is_some());

    // A retained discovery topic of a known container stays
    let known = MqttMessage::new("homeassistant/sensor/gantry-crane/web__image/config".into(), "{}".into(), true, 0);
    assert!(matches!(ha.handle_event(Event::MqttMessageReceived(known)), HaAction::Nothing));

    // A retained discovery topic of an unknown container is cleared
    let stale = MqttMessage::new("homeassistant/sensor/gantry-crane/old__image/config".into(), "{}".into(), true, 0);
    match ha.handle_event(Event::MqttMessageReceived(stale)) {
        HaAction::Send(msgs) => {
            assert_eq!(msgs.len(), 1);
            assert_eq!(msgs[0].topic, "homeassistant/sensor/gantry-crane/old__image/config");
            assert_eq!(msgs[0].payload, "");
            assert!(msgs[0].retained);
            assert_eq!(msgs[0].qos, 1);
        }
        _ => panic!("expected clearing"),
    }

    // Other node ids and shapes are left alone
    let other = MqttMessage::new("homeassistant/sensor/other/old__image/config".into(), "{}".into(), true, 0);
    assert!(matches!(ha.handle_event(Event::MqttMessageReceived(other)), HaAction::Nothing));
    let no_sep = MqttMessage::new("homeassistant/sensor/gantry-crane/old_image/config".into(), "{}".into(), true, 0);
    assert!(matches!(ha.handle_event(Event::MqttMessageReceived(no_sep)), HaAction::Nothing));

    match ha.handle_event(Event::ContainerRemoved(info.clone())) {
        HaAction::Send(msgs) => assert_eq!(msgs.len(), 17),
        _ => panic!("expected withdrawal"),
    }
    assert!(ha.get("/web").is_none());
    match ha.handle_event(Event::ContainerRemoved(info)) {
        HaAction::UnknownContainer(name) => assert_eq!(name, "/web"),
        _ => panic!("expected unknown container"),
    }
    assert!(matches!(ha.handle_event(Event::ForcePoll), HaAction::Nothing));
}

#[test]
fn discovery_prefix_with_slash_clears_nothing() {
    let mut settings = Settings::default();
    settings.homeassistant.base_topic = "home/assistant".into();
    let mut ha = HomeAssistantIntegration::new(Arc::new(settings));
    let stale = MqttMessage::new("home/assistant/button/gantry-crane/old__stop/config".into(), "{}".into(), true, 0);
    assert!(matches!(ha.handle_event(Event::MqttMessageReceived(stale)), HaAction::Nothing));
}

#[test]
fn created_device_is_made_by_docker() {
    let mut ha = HomeAssistantIntegration::new(Arc::new(Settings::default()));
    let info = ContainerEventInfo { name: "/my web".into(), is_host_networking: false };
    ha.handle_event(Event::ContainerCreated(info));
    let c = ha.get("/my web").unwrap();
    assert_eq!(c.device.name, "my web");
    assert_eq!(c.device.manufacturer.as_deref(), Some("Docker"));
    assert_eq!(c.device.identifiers, vec!["gc_my_web".to_string()]);
    assert!(c.device.model.is_none());
    assert!(c.device.sw_version.is_none());
}
