//! Buttons that send container requests.

use std::sync::Arc;

use vstd::prelude::*;

use crate::homeassistant::device::{Device, DeviceView};
use crate::homeassistant::entity::{discovery_topic, opt_view, topic_segment, DeviceClass, Entity, EntityCategory};
use crate::text::{replace_char_exec, to_lowercase};

verus! {

/// A button entity.
#[derive(Debug)]
pub struct Button {
    pub availability_topic: Option<String>,
    pub command_topic: String,
    pub device: Arc<Device>,
    pub device_class: Option<DeviceClass>,
    pub enabled_by_default: Option<bool>,
    pub entity_category: Option<EntityCategory>,
    pub icon: Option<String>,
    pub name: String,
    pub object_id: Option<String>,
    pub payload_available: Option<String>,
    pub payload_not_available: Option<String>,
    pub payload_press: String,
    pub retain: Option<bool>,
    pub unique_id: Option<String>,
}

/// The button's fields as strings.
pub struct ButtonView {
    pub availability_topic: Option<Seq<char>>,
    pub command_topic: Seq<char>,
    pub device: DeviceView,
    pub device_class: Option<DeviceClass>,
    pub enabled_by_default: Option<bool>,
    pub entity_category: Option<EntityCategory>,
    pub icon: Option<Seq<char>>,
    pub name: Seq<char>,
    pub object_id: Option<Seq<char>>,
    pub payload_available: Option<Seq<char>>,
    pub payload_not_available: Option<Seq<char>>,
    pub payload_press: Seq<char>,
    pub retain: Option<bool>,
    pub unique_id: Option<Seq<char>>,
}

impl View for Button {
    type V = ButtonView;

    open spec fn view(&self) -> ButtonView {
        ButtonView {
            availability_topic: opt_view(self.availability_topic),
            command_topic: self.command_topic@,
            device: (*self.device)@,
            device_class: self.device_class,
            enabled_by_default: self.enabled_by_default,
            entity_category: self.entity_category,
            icon: opt_view(self.icon),
            name: self.name@,
            object_id: opt_view(self.object_id),
            payload_available: opt_view(self.payload_available),
            payload_not_available: opt_view(self.payload_not_available),
            payload_press: self.payload_press@,
            retain: self.retain,
            unique_id: opt_view(self.unique_id),
        }
    }
}

impl Button {
    /// The device's name as it appears in discovery topics.
    pub fn get_device_topic(&self) -> (r: String)
        ensures
            r@ == topic_segment(self.device.name@),
    {
        proof {
            reveal_strlit("_");
        }
        let lower = to_lowercase(self.device.name.as_str());
        replace_char_exec(lower.as_str(), ' ', "_")
    }
}

impl Entity for Button {
    open spec fn topic_of(&self, base_topic: Seq<char>, node_id: Seq<char>) -> Seq<char> {
        discovery_topic(base_topic, "button"@, node_id, self.device.name@, self.name@)
    }

    fn topic(&self, base_topic: &str, node_id: &str) -> (r: String) {
        proof {
            reveal_strlit("_");
        }
        let device = self.get_device_topic();
        let lower = to_lowercase(self.name.as_str());
        let name = replace_char_exec(lower.as_str(), ' ', "_");
        String::from_str(base_topic).concat("/").concat("button").concat("/").concat(node_id).concat(
            "/",
        ).concat(device.as_str()).concat("__").concat(name.as_str()).concat("/config")
    }
}

} // verus!
