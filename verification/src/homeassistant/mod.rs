//! Home Assistant MQTT discovery: a device with sensors and buttons for each
//! container, announced while the container exists and withdrawn when it goes away.

pub mod button;
pub mod container;
pub mod device;
pub mod entity;
pub mod sensor;

use std::sync::Arc;

use vstd::prelude::*;
use vstd::hash_map::StringHashMap;

use crate::constants::APP_NAME;
use crate::events::{ContainerEventInfo, Event};
use crate::mqtt::MqttMessage;
use crate::settings::Settings;
use crate::text::{
    before_first, before_first_exec, contains_seq, contains_str, is_ascii_char, split, split_exec, str_eq,
    to_owned_string, views,
};

use self::container::HomeAssistantContainer;

verus! {

/// What the integration asks the bridge to do after an event.
pub enum HaAction {
    /// Nothing to do.
    Nothing,
    /// Serialize the entities of the named container and publish them with
    /// `HomeAssistantContainer::publish`.
    PublishDiscovery(String),
    /// Publish these messages.
    Send(Vec<MqttMessage>),
    /// A container was reported removed that the integration does not know.
    UnknownContainer(String),
}

/// The Home Assistant integration: the devices of all known containers.
pub struct HomeAssistantIntegration {
    pub settings: Arc<Settings>,
    pub containers: StringHashMap<HomeAssistantContainer>,
}

/// The container a retained discovery topic belongs to, if the topic, split at `/`,
/// has the shape `<discovery prefix>/<component>/<node id>/<device>__<entity>/config`
/// for this bridge: the device part before the first `__`.
pub open spec fn discovery_topic_container(settings: Settings, topic: Seq<char>) -> Option<Seq<char>> {
    let parts = split(topic, '/');
    if parts.len() == 5 && parts[0] == settings.homeassistant.base_topic@ && parts[2]
        == settings.homeassistant.node_id@ && contains_seq(parts[3], "__"@) && parts[4] == "config"@ {
        Some(before_first(parts[3], "__"@))
    } else {
        None
    }
}

/// The name can be shown without its leading slash.
pub open spec fn valid_container_name(name: Seq<char>) -> bool {
    name.len() > 0 && is_ascii_char(name[0])
}

impl HomeAssistantIntegration {
    /// The devices of the known containers, by container name.
    pub open spec fn containers(&self) -> Map<Seq<char>, HomeAssistantContainer> {
        self.containers@
    }

    pub fn new(settings: Arc<Settings>) -> (r: Self)
        ensures
            r.settings == settings,
            r.containers() == Map::<Seq<char>, HomeAssistantContainer>::empty(),
    {
        HomeAssistantIntegration { settings, containers: StringHashMap::new() }
    }

    /// The device of a known container.
    pub fn get(&self, name: &str) -> (r: Option<&HomeAssistantContainer>)
        ensures
            match r {
                Some(c) => self.containers().contains_key(name@) && *c == self.containers()[name@],
                None => !self.containers().contains_key(name@),
            },
    {
        self.containers.get(name)
    }

    /// The topic filter subscribed to in order to find retained discovery topics:
    /// `<discovery prefix>/+/gantry-crane/+/config`.
    pub fn subscription_topic(&self) -> (r: String)
        ensures
            r@ == self.settings.homeassistant.base_topic@ + "/+/"@ + APP_NAME@ + "/+/config"@,
    {
        self.settings.homeassistant.base_topic.clone().concat("/+/").concat(APP_NAME).concat("/+/config")
    }

    /// Reacts to an event: a created container gets a device (replacing any previous
    /// one of the same name) whose discovery is to be published; a removed container's
    /// device is withdrawn and forgotten; a received retained discovery message of this
    /// bridge for a device no container stands for is cleared with an empty QoS 1
    /// payload. Other events change nothing.
    pub fn handle_event(&mut self, event: Event) -> (r: HaAction)
        requires
            event matches Event::ContainerCreated(info) ==> valid_container_name(info.name@),
        ensures
            final(self).settings == old(self).settings,
            match event {
                Event::ContainerCreated(info) => {
                    &&& r matches HaAction::PublishDiscovery(name) && name@ == info.name@
                    &&& final(self).containers().contains_key(info.name@)
                    &&& final(self).containers().remove(info.name@) == old(self).containers().remove(info.name@)
                    &&& {
                        let c = final(self).containers()[info.name@];
                        &&& c.settings == old(self).settings
                        &&& c.node_id@ == old(self).settings.homeassistant.node_id@
                        &&& c.is_host_networking == info.is_host_networking
                        &&& c.device.name@ == info.name@.drop_first()
                        &&& c.device@.manufacturer == Some("Docker"@)
                        &&& c.device@.identifiers == seq![crate::homeassistant::device::device_identifier(info.name@.drop_first())]
                        &&& c.device.model is None
                        &&& c.device.sw_version is None
                        &&& c.has_entities()
                    }
                },
                Event::ContainerRemoved(info) => {
                    &&& final(self).containers() == old(self).containers().remove(info.name@)
                    &&& if old(self).containers().contains_key(info.name@) {
                        let c = old(self).containers()[info.name@];
                        r matches HaAction::Send(msgs) && msgs@.len() == c.entity_topics().len()
                            && forall|i: int| 0 <= i < msgs@.len() ==> #[trigger] msgs@[i].is(c.entity_topics()[i], Seq::empty(), true, 1)
                    } else {
                        r matches HaAction::UnknownContainer(name) && name@ == info.name@
                    }
                },
                Event::MqttMessageReceived(msg) => {
                    &&& final(self).containers() == old(self).containers()
                    &&& match discovery_topic_container(*old(self).settings, msg.topic@) {
                        Some(device) => if old(self).containers().contains_key("/"@ + device) {
                            r is Nothing
                        } else {
                            r matches HaAction::Send(msgs) && msgs@.len() == 1 && msgs@[0].is(msg.topic@, Seq::empty(), msg.retained, 1)
                        },
                        None => r is Nothing,
                    }
                },
                _ => {
                    &&& final(self).containers() == old(self).containers()
                    &&& r is Nothing
                },
            },
    {
        match event {
            Event::ContainerCreated(info) => {
                let container = HomeAssistantContainer::new(
                    self.settings.clone(),
                    &info,
                    self.settings.homeassistant.node_id.clone(),
                );
                let name = info.name.clone();
                self.containers.insert(info.name, container);
                HaAction::PublishDiscovery(name)
            },
            Event::ContainerRemoved(info) => {
                match self.containers.get(info.name.as_str()) {
                    Some(container) => {
                        let msgs = container.unpublish();
                        self.containers.remove(info.name.as_str());
                        HaAction::Send(msgs)
                    },
                    None => HaAction::UnknownContainer(info.name),
                }
            },
            Event::MqttMessageReceived(msg) => {
                match self.stale_discovery(&msg) {
                    Some(_) => {
                        proof {
                            reveal_strlit("");
                        }
                        assert(""@ =~= Seq::<char>::empty());
                        let cleared = MqttMessage::new(msg.topic, to_owned_string(""), msg.retained, 1);
                        let mut msgs: Vec<MqttMessage> = Vec::new();
                        msgs.push(cleared);
                        HaAction::Send(msgs)
                    },
                    None => HaAction::Nothing,
                }
            },
            _ => HaAction::Nothing,
        }
    }

    /// The device name of a received discovery message of this bridge that no known
    /// container stands for.
    fn stale_discovery(&self, msg: &MqttMessage) -> (r: Option<String>)
        ensures
            match discovery_topic_container(*self.settings, msg.topic@) {
                Some(device) => if self.containers().contains_key("/"@ + device) {
                    r is None
                } else {
                    r matches Some(d) && d@ == device
                },
                None => r is None,
            },
    {
        proof {
            reveal_strlit("__");
            reveal_strlit("config");
        }
        let parts = split_exec(msg.topic.as_str(), '/');
        let ghost pv = views(parts@);
        assert(pv.len() == parts@.len());
        if parts.len() != 5 {
            return None;
        }
        assert(pv[0] == parts@[0]@ && pv[2] == parts@[2]@ && pv[3] == parts@[3]@ && pv[4] == parts@[4]@);
        if !str_eq(parts[0].as_str(), self.settings.homeassistant.base_topic.as_str())
            || !str_eq(parts[2].as_str(), self.settings.homeassistant.node_id.as_str())
            || !contains_str(parts[3].as_str(), "__")
            || !str_eq(parts[4].as_str(), "config") {
            return None;
        }
        let device = before_first_exec(parts[3].as_str(), "__");
        let key = to_owned_string("/").concat(device.as_str());
        if self.containers.contains_key(key.as_str()) {
            None
        } else {
            Some(device)
        }
    }
}

} // verus!
