//! Home Assistant MQTT discovery entities.

use vstd::prelude::*;

use crate::text::{replace_char, unicode_lowercase};

verus! {

/// An entity announced through Home Assistant MQTT discovery.
pub trait Entity {
    /// The discovery topic of the entity under the given discovery prefix and node id.
    spec fn topic_of(&self, base_topic: Seq<char>, node_id: Seq<char>) -> Seq<char>;

    fn topic(&self, base_topic: &str, node_id: &str) -> (r: String)
        ensures
            r@ == self.topic_of(base_topic@, node_id@),
    ;
}

/// Device class of a button.
#[derive(Debug, Clone, Copy, PartialEq, Eq)]
pub enum DeviceClass {
    Restart,
    Update,
}

/// Category of an entity.
#[derive(Debug, Clone, Copy, PartialEq, Eq)]
pub enum EntityCategory {
    Config,
    Diagnostic,
}

/// State class of a sensor.
#[derive(Debug, Clone, Copy, PartialEq, Eq)]
pub enum StateClass {
    Measurement,
    Total,
    TotalIncreasing,
}

/// A name as it appears in discovery topics: lowercased, spaces replaced by
/// underscores.
pub open spec fn topic_segment(name: Seq<char>) -> Seq<char> {
    replace_char(unicode_lowercase(name), ' ', '_')
}

/// `<base>/<component>/<node id>/<device>__<entity>/config`.
pub open spec fn discovery_topic(
    base_topic: Seq<char>,
    component: Seq<char>,
    node_id: Seq<char>,
    device_name: Seq<char>,
    entity_name: Seq<char>,
) -> Seq<char> {
    base_topic + "/"@ + component + "/"@ + node_id + "/"@ + topic_segment(device_name) + "__"@
        + topic_segment(entity_name) + "/config"@
}

/// The views of optional strings.
pub open spec fn opt_view(o: Option<String>) -> Option<Seq<char>> {
    match o {
        Some(s) => Some(s@),
        None => None,
    }
}

} // verus!
