//! The Home Assistant device of a container with its sensors and buttons, and the
//! discovery messages that announce and withdraw them.

use std::sync::Arc;

use vstd::prelude::*;

use crate::constants::{AVAILABILITY_TOPIC, SET_STATE_TOPIC};
use crate::container::share;
use crate::events::ContainerEventInfo;
use crate::homeassistant::button::{Button, ButtonView};
use crate::homeassistant::device::{Device, DeviceView};
use crate::homeassistant::entity::{DeviceClass, Entity, StateClass};
use crate::homeassistant::sensor::{Sensor, SensorView};
use crate::mqtt::MqttMessage;
use crate::settings::Settings;
use crate::text::{is_ascii_char, to_owned_string, without_first};

verus! {

/// What sets one sensor apart from the others of a container.
pub struct SensorTemplate {
    pub name: Seq<char>,
    /// Suffix of the object and unique ids.
    pub key: Seq<char>,
    pub icon: Seq<char>,
    pub enabled: bool,
    pub state_class: Option<StateClass>,
    pub unit: Option<Seq<char>>,
    /// Field of the container's published figures the sensor shows.
    pub field: Seq<char>,
}

/// What sets one button apart from the others of a container.
pub struct ButtonTemplate {
    pub name: Seq<char>,
    /// Suffix of the object and unique ids, and the request the button sends.
    pub key: Seq<char>,
    pub icon: Option<Seq<char>>,
    pub device_class: Option<DeviceClass>,
    pub enabled: bool,
}

pub open spec fn sensor_template(
    name: Seq<char>,
    key: Seq<char>,
    icon: Seq<char>,
    enabled: bool,
    state_class: Option<StateClass>,
    unit: Option<Seq<char>>,
    field: Seq<char>,
) -> SensorTemplate {
    SensorTemplate { name, key, icon, enabled, state_class, unit, field }
}

pub open spec fn button_template(
    name: Seq<char>,
    key: Seq<char>,
    icon: Option<Seq<char>>,
    device_class: Option<DeviceClass>,
    enabled: bool,
) -> ButtonTemplate {
    ButtonTemplate { name, key, icon, device_class, enabled }
}

/// The sensors of a container, in order. Containers on the host's network have no
/// network figures, so they lack the two network sensors.
pub open spec fn sensor_templates(host_networking: bool) -> Seq<SensorTemplate> {
    let m = Some(StateClass::Measurement);
    let head = seq![
        sensor_template("Image"@, "image"@, "mdi:docker"@, true, None, None, "image"@),
        sensor_template("State"@, "state"@, "mdi:docker"@, true, None, None, "state"@),
        sensor_template("Health"@, "health"@, "mdi:heart-pulse"@, false, None, None, "health"@),
        sensor_template("CPU Percentage"@, "cpu"@, "mdi:cpu-64-bit"@, true, m, Some("%"@), "cpu_percentage"@),
        sensor_template("Memory Percentage"@, "mem"@, "mdi:memory"@, true, m, Some("%"@), "mem_percentage"@),
        sensor_template("Memory Usage"@, "mem_mb"@, "mdi:memory"@, false, m, Some("MB"@), "mem_mb"@),
    ];
    let net = seq![
        sensor_template("Net RX"@, "net_rx"@, "mdi:download-network-outline"@, false, m, Some("MB"@), "net_rx_mb"@),
        sensor_template("Net TX"@, "net_tx"@, "mdi:upload-network-outline"@, false, m, Some("MB"@), "net_tx_mb"@),
    ];
    let tail = seq![
        sensor_template("Block RX"@, "block_rx"@, "mdi:file-download-outline"@, false, m, Some("MB"@), "block_rx_mb"@),
        sensor_template("Block TX"@, "block_tx"@, "mdi:file-upload-outline"@, false, m, Some("MB"@), "block_tx_mb"@),
    ];
    if host_networking {
        head + tail
    } else {
        head + net + tail
    }
}

/// The buttons of a container, in order.
pub open spec fn button_templates() -> Seq<ButtonTemplate> {
    seq![
        button_template("Start"@, "start"@, Some("mdi:play"@), None, true),
        button_template("Stop"@, "stop"@, Some("mdi:stop"@), None, true),
        button_template("Restart"@, "restart"@, None, Some(DeviceClass::Restart), true),
        button_template("Pause"@, "pause"@, Some("mdi:pause"@), None, false),
        button_template("Unpause"@, "unpause"@, Some("mdi:play-pause"@), None, false),
        button_template("Recreate"@, "recreate"@, Some("mdi:autorenew"@), None, false),
        button_template("Pull and Recreate"@, "pull_recreate"@, Some("mdi:update"@), None, false),
    ]
}

/// The sensor built from a template for a device, with figures on the device's topic
/// under the MQTT base topic `base`.
pub open spec fn expected_sensor(base: Seq<char>, device: DeviceView, t: SensorTemplate) -> SensorView {
    SensorView {
        availability_topic: Some(base + "/"@ + AVAILABILITY_TOPIC@),
        device: device,
        enabled_by_default: Some(t.enabled),
        entity_category: None,
        expire_after: None,
        force_update: None,
        icon: Some(t.icon),
        name: t.name,
        object_id: Some(device.name + "_"@ + t.key),
        payload_available: None,
        payload_not_available: None,
        state_class: t.state_class,
        state_topic: base + "/"@ + device.name,
        unique_id: Some("gc_"@ + device.name + "_"@ + t.key),
        unit_of_measurement: t.unit,
        value_template: Some("{{ value_json['"@ + t.field + "'] }}"@),
    }
}

/// The button built from a template for a device: pressing it sends the template's
/// key to the device's `set` topic under the MQTT base topic `base`.
pub open spec fn expected_button(base: Seq<char>, device: DeviceView, t: ButtonTemplate) -> ButtonView {
    ButtonView {
        availability_topic: Some(base + "/"@ + AVAILABILITY_TOPIC@),
        command_topic: base + "/"@ + device.name + "/"@ + SET_STATE_TOPIC@,
        device: device,
        device_class: t.device_class,
        enabled_by_default: Some(t.enabled),
        entity_category: None,
        icon: t.icon,
        name: t.name,
        object_id: Some(device.name + "_"@ + t.key),
        payload_available: None,
        payload_not_available: None,
        payload_press: t.key,
        retain: None,
        unique_id: Some("gc_"@ + device.name + "_"@ + t.key),
    }
}

pub open spec fn opt_str_view(o: Option<&str>) -> Option<Seq<char>> {
    match o {
        Some(s) => Some(s@),
        None => None,
    }
}

fn make_sensor(
    settings: &Arc<Settings>,
    device: &Arc<Device>,
    name: &str,
    key: &str,
    icon: &str,
    enabled: bool,
    state_class: Option<StateClass>,
    unit: Option<&str>,
    field: &str,
) -> (r: Sensor)
    ensures
        r@ == expected_sensor(
            settings.mqtt.base_topic@,
            (**device)@,
            sensor_template(name@, key@, icon@, enabled, state_class, opt_str_view(unit), field@),
        ),
{
    let base = &settings.mqtt.base_topic;
    let dev_name = &device.name;
    Sensor {
        name: to_owned_string(name),
        state_topic: base.clone().concat("/").concat(dev_name.as_str()),
        availability_topic: Some(base.clone().concat("/").concat(AVAILABILITY_TOPIC)),
        device: share(device),
        enabled_by_default: Some(enabled),
        entity_category: None,
        expire_after: None,
        force_update: None,
        icon: Some(to_owned_string(icon)),
        object_id: Some(dev_name.clone().concat("_").concat(key)),
        payload_available: None,
        payload_not_available: None,
        state_class: state_class,
        unique_id: Some(to_owned_string("gc_").concat(dev_name.as_str()).concat("_").concat(key)),
        unit_of_measurement: match unit {
            Some(u) => Some(to_owned_string(u)),
            None => None,
        },
        value_template: Some(to_owned_string("{{ value_json['").concat(field).concat("'] }}")),
    }
}

fn make_button(
    settings: &Arc<Settings>,
    device: &Arc<Device>,
    name: &str,
    key: &str,
    icon: Option<&str>,
    device_class: Option<DeviceClass>,
    enabled: bool,
) -> (r: Button)
    ensures
        r@ == expected_button(
            settings.mqtt.base_topic@,
            (**device)@,
            button_template(name@, key@, opt_str_view(icon), device_class, enabled),
        ),
{
    let base = &settings.mqtt.base_topic;
    let dev_name = &device.name;
    Button {
        name: to_owned_string(name),
        availability_topic: Some(base.clone().concat("/").concat(AVAILABILITY_TOPIC)),
        command_topic: base.clone().concat("/").concat(dev_name.as_str()).concat("/").concat(
            SET_STATE_TOPIC,
        ),
        device: share(device),
        device_class: device_class,
        enabled_by_default: Some(enabled),
        entity_category: None,
        icon: match icon {
            Some(i) => Some(to_owned_string(i)),
            None => None,
        },
        object_id: Some(dev_name.clone().concat("_").concat(key)),
        payload_available: None,
        payload_not_available: None,
        payload_press: to_owned_string(key),
        retain: None,
        unique_id: Some(to_owned_string("gc_").concat(dev_name.as_str()).concat("_").concat(key)),
    }
}

/// A container as a Home Assistant device with its sensors and buttons.
pub struct HomeAssistantContainer {
    pub settings: Arc<Settings>,
    pub node_id: String,
    pub is_host_networking: bool,
    pub device: Arc<Device>,
    pub sensors: Vec<Sensor>,
    pub buttons: Vec<Button>,
}

impl HomeAssistantContainer {
    /// The views of the sensors.
    pub open spec fn sensor_views(self) -> Seq<SensorView> {
        self.sensors@.map_values(|s: Sensor| s@)
    }

    /// The views of the buttons.
    pub open spec fn button_views(self) -> Seq<ButtonView> {
        self.buttons@.map_values(|b: Button| b@)
    }

    /// The sensors and buttons are exactly those of the templates, for this device and
    /// the configured MQTT base topic.
    pub open spec fn has_entities(self) -> bool {
        &&& self.sensor_views() == sensor_templates(self.is_host_networking).map_values(
            |t: SensorTemplate| expected_sensor(self.settings.mqtt.base_topic@, (*self.device)@, t),
        )
        &&& self.button_views() == button_templates().map_values(
            |t: ButtonTemplate| expected_button(self.settings.mqtt.base_topic@, (*self.device)@, t),
        )
    }

    /// The Home Assistant device and entities of a container. The device is named after
    /// the container, without the leading slash, and made by `Docker`.
    pub fn new(settings: Arc<Settings>, container: &ContainerEventInfo, node_id: String) -> (r: Self)
        requires
            container.name@.len() > 0,
            is_ascii_char(container.name@[0]),
        ensures
            r.settings == settings,
            r.node_id == node_id,
            r.is_host_networking == container.is_host_networking,
            r.device.name@ == container.name@.drop_first(),
            r.device@.manufacturer == Some("Docker"@),
            r.device@.identifiers == seq![crate::homeassistant::device::device_identifier(container.name@.drop_first())],
            r.device.model is None,
            r.device.sw_version is None,
            r.has_entities(),
    {
        let name = without_first(container.name.as_str());
        let device = Arc::new(Device::new(name, Some(to_owned_string("Docker"))));
        let c = HomeAssistantContainer {
            settings,
            node_id,
            is_host_networking: container.is_host_networking,
            device,
            sensors: Vec::new(),
            buttons: Vec::new(),
        };
        c.setup_sensors().setup_buttons()
    }

    /// Adds the sensors.
    fn setup_sensors(self) -> (r: Self)
        ensures
            r.settings == self.settings,
            r.node_id == self.node_id,
            r.is_host_networking == self.is_host_networking,
            r.device == self.device,
            r.buttons == self.buttons,
            r.sensor_views() == self.sensor_views() + sensor_templates(self.is_host_networking).map_values(
                |t: SensorTemplate| expected_sensor(self.settings.mqtt.base_topic@, (*self.device)@, t),
            ),
    {
        let HomeAssistantContainer { settings, node_id, is_host_networking, device, mut sensors, buttons } = self;
        let ghost old_sensors = sensors@;
        let s = &settings;
        let d = &device;
        let m = Some(StateClass::Measurement);
        sensors.push(make_sensor(s, d, "Image", "image", "mdi:docker", true, None, None, "image"));
        sensors.push(make_sensor(s, d, "State", "state", "mdi:docker", true, None, None, "state"));
        sensors.push(make_sensor(s, d, "Health", "health", "mdi:heart-pulse", false, None, None, "health"));
        sensors.push(make_sensor(s, d, "CPU Percentage", "cpu", "mdi:cpu-64-bit", true, m, Some("%"), "cpu_percentage"));
        sensors.push(make_sensor(s, d, "Memory Percentage", "mem", "mdi:memory", true, m, Some("%"), "mem_percentage"));
        sensors.push(make_sensor(s, d, "Memory Usage", "mem_mb", "mdi:memory", false, m, Some("MB"), "mem_mb"));
        // Network figures are not available with host networking
        if !is_host_networking {
            sensors.push(make_sensor(s, d, "Net RX", "net_rx", "mdi:download-network-outline", false, m, Some("MB"), "net_rx_mb"));
            sensors.push(make_sensor(s, d, "Net TX", "net_tx", "mdi:upload-network-outline", false, m, Some("MB"), "net_tx_mb"));
        }
        sensors.push(make_sensor(s, d, "Block RX", "block_rx", "mdi:file-download-outline", false, m, Some("MB"), "block_rx_mb"));
        sensors.push(make_sensor(s, d, "Block TX", "block_tx", "mdi:file-upload-outline", false, m, Some("MB"), "block_tx_mb"));
        let r = HomeAssistantContainer { settings, node_id, is_host_networking, device, sensors, buttons };
        assert(r.sensor_views() =~= old_sensors.map_values(|s: Sensor| s@) + sensor_templates(is_host_networking).map_values(
            |t: SensorTemplate| expected_sensor(r.settings.mqtt.base_topic@, (*r.device)@, t),
        ));
        r
    }

    /// Adds the buttons.
    fn setup_buttons(self) -> (r: Self)
        ensures
            r.settings == self.settings,
            r.node_id == self.node_id,
            r.is_host_networking == self.is_host_networking,
            r.device == self.device,
            r.sensors == self.sensors,
            r.button_views() == self.button_views() + button_templates().map_values(
                |t: ButtonTemplate| expected_button(self.settings.mqtt.base_topic@, (*self.device)@, t),
            ),
    {
        let HomeAssistantContainer { settings, node_id, is_host_networking, device, sensors, mut buttons } = self;
        let ghost old_buttons = buttons@;
        let s = &settings;
        let d = &device;
        buttons.push(make_button(s, d, "Start", "start", Some("mdi:play"), None, true));
        buttons.push(make_button(s, d, "Stop", "stop", Some("mdi:stop"), None, true));
        buttons.push(make_button(s, d, "Restart", "restart", None, Some(DeviceClass::Restart), true));
        buttons.push(make_button(s, d, "Pause", "pause", Some("mdi:pause"), None, false));
        buttons.push(make_button(s, d, "Unpause", "unpause", Some("mdi:play-pause"), None, false));
        buttons.push(make_button(s, d, "Recreate", "recreate", Some("mdi:autorenew"), None, false));
        buttons.push(make_button(s, d, "Pull and Recreate", "pull_recreate", Some("mdi:update"), None, false));
        let r = HomeAssistantContainer { settings, node_id, is_host_networking, device, sensors, buttons };
        assert(r.button_views() =~= old_buttons.map_values(|b: Button| b@) + button_templates().map_values(
            |t: ButtonTemplate| expected_button(r.settings.mqtt.base_topic@, (*r.device)@, t),
        ));
        r
    }

    /// The discovery topics of the sensors, then of the buttons, under the configured
    /// discovery prefix and this container's node id.
    pub open spec fn entity_topics(self) -> Seq<Seq<char>> {
        let base = self.settings.homeassistant.base_topic@;
        let node = self.node_id@;
        self.sensors@.map_values(|s: Sensor| s.topic_of(base, node)) + self.buttons@.map_values(
            |b: Button| b.topic_of(base, node),
        )
    }

    /// The number of entities, sensors and buttons.
    pub fn entity_count(&self) -> (r: usize)
        requires
            self.sensors@.len() + self.buttons@.len() <= usize::MAX,
        ensures
            r == self.sensors@.len() + self.buttons@.len(),
    {
        self.sensors.len() + self.buttons.len()
    }

    /// The discovery message of one entity: its serialized configuration, retained,
    /// QoS 1.
    pub fn publish_entity<E: Entity>(&self, entity: &E, payload: String) -> (r: MqttMessage)
        ensures
            r.is(entity.topic_of(self.settings.homeassistant.base_topic@, self.node_id@), payload@, true, 1),
    {
        let topic = entity.topic(self.settings.homeassistant.base_topic.as_str(), self.node_id.as_str());
        MqttMessage::new(topic, payload, true, 1)
    }

    /// The message that withdraws one entity: an empty retained QoS 1 payload on its
    /// discovery topic.
    pub fn unpublish_entity<E: Entity>(&self, entity: &E) -> (r: MqttMessage)
        ensures
            r.is(entity.topic_of(self.settings.homeassistant.base_topic@, self.node_id@), Seq::empty(), true, 1),
    {
        proof {
            reveal_strlit("");
        }
        assert(""@ =~= Seq::<char>::empty());
        let topic = entity.topic(self.settings.homeassistant.base_topic.as_str(), self.node_id.as_str());
        MqttMessage::new(topic, to_owned_string(""), true, 1)
    }

    /// The discovery messages of all entities, sensors first, with the given serialized
    /// configurations in the same order.
    pub fn publish(&self, payloads: &Vec<String>) -> (r: Vec<MqttMessage>)
        requires
            payloads@.len() == self.sensors@.len() + self.buttons@.len(),
        ensures
            r@.len() == self.entity_topics().len(),
            forall|i: int| 0 <= i < r@.len() ==> #[trigger] r@[i].is(self.entity_topics()[i], payloads@[i]@, true, 1),
    {
        let ghost topics = self.entity_topics();
        let ns = self.sensors.len();
        let nb = self.buttons.len();
        let mut r: Vec<MqttMessage> = Vec::new();
        let mut i: usize = 0;
        while i < ns
            invariant
                ns == self.sensors@.len(),
                nb == self.buttons@.len(),
                payloads@.len() == ns + nb,
                topics == self.entity_topics(),
                i <= ns,
                r@.len() == i,
                forall|k: int| 0 <= k < i ==> #[trigger] r@[k].is(topics[k], payloads@[k]@, true, 1),
            decreases ns - i,
        {
            r.push(self.publish_entity(&self.sensors[i], payloads[i].clone()));
            i = i + 1;
        }
        let np = payloads.len();
        let mut j: usize = 0;
        while j < nb
            invariant
                ns == self.sensors@.len(),
                nb == self.buttons@.len(),
                np == payloads@.len(),
                payloads@.len() == ns + nb,
                topics == self.entity_topics(),
                j <= nb,
                r@.len() == ns + j,
                forall|k: int| 0 <= k < ns + j ==> #[trigger] r@[k].is(topics[k], payloads@[k]@, true, 1),
            decreases nb - j,
        {
            r.push(self.publish_entity(&self.buttons[j], payloads[ns + j].clone()));
            j = j + 1;
        }
        r
    }

    /// The messages that withdraw all entities, sensors first.
    pub fn unpublish(&self) -> (r: Vec<MqttMessage>)
        ensures
            r@.len() == self.entity_topics().len(),
            forall|i: int| 0 <= i < r@.len() ==> #[trigger] r@[i].is(self.entity_topics()[i], Seq::empty(), true, 1),
    {
        let ghost topics = self.entity_topics();
        let ns = self.sensors.len();
        let nb = self.buttons.len();
        let mut r: Vec<MqttMessage> = Vec::new();
        let mut i: usize = 0;
        while i < ns
            invariant
                ns == self.sensors@.len(),
                nb == self.buttons@.len(),
                topics == self.entity_topics(),
                i <= ns,
                r@.len() == i,
                forall|k: int| 0 <= k < i ==> #[trigger] r@[k].is(topics[k], Seq::empty(), true, 1),
            decreases ns - i,
        {
            r.push(self.unpublish_entity(&self.sensors[i]));
            i = i + 1;
        }
        let mut j: usize = 0;
        while j < nb
            invariant
                ns == self.sensors@.len(),
                nb == self.buttons@.len(),
                topics == self.entity_topics(),
                j <= nb,
                r@.len() == ns + j,
                forall|k: int| 0 <= k < ns + j ==> #[trigger] r@[k].is(topics[k], Seq::empty(), true, 1),
            decreases nb - j,
        {
            r.push(self.unpublish_entity(&self.buttons[j]));
            j = j + 1;
        }
        r
    }
}

} // verus!
