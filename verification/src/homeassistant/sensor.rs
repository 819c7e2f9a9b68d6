//! Sensors that show the figures of a container.

use std::sync::Arc;

use vstd::prelude::*;

use crate::homeassistant::device::{Device, DeviceView};
use crate::homeassistant::entity::{discovery_topic, opt_view, topic_segment, Entity, EntityCategory, StateClass};
use crate::text::{replace_char_exec, to_lowercase};

verus! {

/// A sensor entity.
#[derive(Debug)]
pub struct Sensor {
    pub availability_topic: Option<String>,
    pub device: Arc<Device>,
    pub enabled_by_default: Option<bool>,
    pub entity_category: Option<EntityCategory>,
    pub expire_after: Option<u32>,
    pub force_update: Option<bool>,
    pub icon: Option<String>,
    pub name: String,
    pub object_id: Option<String>,
    pub payload_available: Option<String>,
    pub payload_not_available: Option<String>,
    pub state_class: Option<StateClass>,
    pub state_topic: String,
    pub unique_id: Option<String>,
    pub unit_of_measurement: Option<String>,
    pub value_template: Option<String>,
}

/// The sensor's fields as strings.
pub struct SensorView {
    pub availability_topic: Option<Seq<char>>,
    pub device: DeviceView,
    pub enabled_by_default: Option<bool>,
    pub entity_category: Option<EntityCategory>,
    pub expire_after: Option<u32>,
    pub force_update: Option<bool>,
    pub icon: Option<Seq<char>>,
    pub name: Seq<char>,
    pub object_id: Option<Seq<char>>,
    pub payload_available: Option<Seq<char>>,
    pub payload_not_available: Option<Seq<char>>,
    pub state_class: Option<StateClass>,
    pub state_topic: Seq<char>,
    pub unique_id: Option<Seq<char>>,
    pub unit_of_measurement: Option<Seq<char>>,
    pub value_template: Option<Seq<char>>,
}

impl View for Sensor {
    type V = SensorView;

    open spec fn view(&self) -> SensorView {
        SensorView {
            availability_topic: opt_view(self.availability_topic),
            device: (*self.device)@,
            enabled_by_default: self.enabled_by_default,
            entity_category: self.entity_category,
            expire_after: self.expire_after,
            force_update: self.force_update,
            icon: opt_view(self.icon),
            name: self.name@,
            object_id: opt_view(self.object_id),
            payload_available: opt_view(self.payload_available),
            payload_not_available: opt_view(self.payload_not_available),
            state_class: self.state_class,
            state_topic: self.state_topic@,
            unique_id: opt_view(self.unique_id),
            unit_of_measurement: opt_view(self.unit_of_measurement),
            value_template: opt_view(self.value_template),
        }
    }
}

impl Sensor {
    /// The device's name as it appears in discovery topics.
    pub fn get_device_topic(&self) -> (r: String)
        ensures
            r@ == topic_segment(self.device.name@),
    {
        proof {
            reveal_strlit("_");
        }
        let lower = to_lowercase(self.device.name.as_str());
        replace_char_exec(lower.as_str(), ' ', "_")
    }
}

impl Entity for Sensor {
    open spec fn topic_of(&self, base_topic: Seq<char>, node_id: Seq<char>) -> Seq<char> {
        discovery_topic(base_topic, "sensor"@, node_id, self.device.name@, self.name@)
    }

    fn topic(&self, base_topic: &str, node_id: &str) -> (r: String) {
        proof {
            reveal_strlit("_");
        }
        let device = self.get_device_topic();
        let lower = to_lowercase(self.name.as_str());
        let name = replace_char_exec(lower.as_str(), ' ', "_");
        String::from_str(base_topic).concat("/").concat("sensor").concat("/").concat(node_id).concat(
            "/",
        ).concat(device.as_str()).concat("__").concat(name.as_str()).concat("/config")
    }
}

} // verus!
