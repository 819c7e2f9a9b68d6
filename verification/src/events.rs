//! Events exchanged between the parts of the bridge.

use vstd::prelude::*;

use crate::container::Container;
use crate::mqtt::MqttMessage;

verus! {

/// An event on the bridge's internal channel.
#[derive(Debug, Clone, PartialEq, Eq)]
pub enum Event {
    ContainerCreated(ContainerEventInfo),
    ContainerRemoved(ContainerEventInfo),
    MqttMessageReceived(MqttMessage),
    PublishMqttMessage(MqttMessage),
    SubscribeMqttTopic(String),
    MqttConnected,
    ForcePoll,
    SuspendPolling,
    ResumePolling,
}

/// What other parts of the bridge learn about a container that appeared or went away.
#[derive(Debug, Clone, PartialEq, Eq)]
pub struct ContainerEventInfo {
    /// The container's name, with its leading slash.
    pub name: String,
    pub is_host_networking: bool,
}

impl ContainerEventInfo {
    /// The event information of a container: its name and network mode.
    pub open spec fn of(c: Container) -> ContainerEventInfo {
        ContainerEventInfo { name: c.name, is_host_networking: c.is_host_networking }
    }
}

impl<'a> From<&'a Container> for ContainerEventInfo {
    fn from(c: &'a Container) -> (r: Self) {
        ContainerEventInfo { name: c.name.clone(), is_host_networking: c.is_host_networking }
    }
}

impl<'a> vstd::std_specs::convert::FromSpecImpl<&'a Container> for ContainerEventInfo {
    open spec fn obeys_from_spec() -> bool {
        true
    }

    open spec fn from_spec(c: &'a Container) -> Self {
        ContainerEventInfo::of(*c)
    }
}

impl From<Container> for ContainerEventInfo {
    fn from(c: Container) -> (r: Self) {
        ContainerEventInfo { name: c.name, is_host_networking: c.is_host_networking }
    }
}

impl vstd::std_specs::convert::FromSpecImpl<Container> for ContainerEventInfo {
    open spec fn obeys_from_spec() -> bool {
        true
    }

    open spec fn from_spec(c: Container) -> Self {
        ContainerEventInfo::of(c)
    }
}

} // verus!
