//! The bridge's decisions on what arrives from the broker and from Docker: container
//! requests, stale retained topics, Docker events, label filtering and the clean-up
//! of retained topics.

use vstd::prelude::*;

use crate::constants::{
    CONTAINER_REQUEST_PAUSE, CONTAINER_REQUEST_PULL_RECREATE, CONTAINER_REQUEST_RECREATE,
    CONTAINER_REQUEST_RESTART, CONTAINER_REQUEST_START, CONTAINER_REQUEST_STOP, CONTAINER_REQUEST_UNPAUSE,
    DOCKER_EVENT_ACTION_CREATE, DOCKER_EVENT_ACTION_DESTROY, DOCKER_EVENT_ACTION_PAUSE,
    DOCKER_EVENT_ACTION_RENAME, DOCKER_EVENT_ACTION_RESTART, DOCKER_EVENT_ACTION_START,
    DOCKER_EVENT_ACTION_STOP, DOCKER_EVENT_ACTION_UNPAUSE, DOCKER_LABEL_FILTER, SET_STATE_TOPIC,
};
use crate::container::ContainerInspect;
use crate::mqtt::MqttMessage;
use crate::registry::ContainerRegistry;
use crate::settings::Settings;
use crate::text::{contains_seq, contains_str, has_prefix, split, split_exec, starts_with, str_eq, strip_prefix_exec, to_owned_string, views};

verus! {

/// A request to change the state of a container.
#[derive(Debug, Clone, Copy, PartialEq, Eq)]
pub enum ContainerRequest {
    Start,
    Stop,
    Restart,
    Pause,
    Unpause,
    Recreate,
    /// Pull the image first, then recreate.
    PullRecreate,
}

/// The request a payload stands for.
pub open spec fn request_of(payload: Seq<char>) -> Option<ContainerRequest> {
    if payload == CONTAINER_REQUEST_START@ {
        Some(ContainerRequest::Start)
    } else if payload == CONTAINER_REQUEST_STOP@ {
        Some(ContainerRequest::Stop)
    } else if payload == CONTAINER_REQUEST_RESTART@ {
        Some(ContainerRequest::Restart)
    } else if payload == CONTAINER_REQUEST_PAUSE@ {
        Some(ContainerRequest::Pause)
    } else if payload == CONTAINER_REQUEST_UNPAUSE@ {
        Some(ContainerRequest::Unpause)
    } else if payload == CONTAINER_REQUEST_RECREATE@ {
        Some(ContainerRequest::Recreate)
    } else if payload == CONTAINER_REQUEST_PULL_RECREATE@ {
        Some(ContainerRequest::PullRecreate)
    } else {
        None
    }
}

/// The request a payload stands for, if any.
pub fn parse_request(payload: &str) -> (r: Option<ContainerRequest>)
    ensures
        r == request_of(payload@),
{
    if str_eq(payload, CONTAINER_REQUEST_START) {
        Some(ContainerRequest::Start)
    } else if str_eq(payload, CONTAINER_REQUEST_STOP) {
        Some(ContainerRequest::Stop)
    } else if str_eq(payload, CONTAINER_REQUEST_RESTART) {
        Some(ContainerRequest::Restart)
    } else if str_eq(payload, CONTAINER_REQUEST_PAUSE) {
        Some(ContainerRequest::Pause)
    } else if str_eq(payload, CONTAINER_REQUEST_UNPAUSE) {
        Some(ContainerRequest::Unpause)
    } else if str_eq(payload, CONTAINER_REQUEST_RECREATE) {
        Some(ContainerRequest::Recreate)
    } else if str_eq(payload, CONTAINER_REQUEST_PULL_RECREATE) {
        Some(ContainerRequest::PullRecreate)
    } else {
        None
    }
}

/// What to do with a message received on the bridge's own topics.
#[derive(Debug)]
pub enum MqttMessageAction {
    /// Not addressed to the bridge, or not one it acts on.
    Ignore,
    /// A retained topic of a container that does not exist: clear it with this message.
    UnpublishStale(MqttMessage),
    /// A request for a container that does not exist.
    UnknownContainer(String),
    /// A request for a known container; `docker_name` is its name without the leading
    /// slash, as Docker expects it.
    Request { container_name: String, docker_name: String, request: ContainerRequest },
    /// A payload that is no request.
    UnknownRequest { container_name: String, payload: String },
}

/// What the bridge does with a received message: the topic must start with the base
/// topic and `/`; the rest is split at `/` and its first part names the container. A
/// retained message on `<base>/<name>` of an unknown container is cleared, when the
/// base topic contains no `/`; a message that is not retained on `<base>/<name>/set` is
/// a request for that container, whatever the base topic.
pub open spec fn message_action_holds(
    r: MqttMessageAction,
    base: Seq<char>,
    known: Set<Seq<char>>,
    msg: MqttMessage,
) -> bool {
    let prefix = base + "/"@;
    if !has_prefix(msg.topic@, prefix) {
        r is Ignore
    } else {
        let parts = split(msg.topic@.skip(prefix.len() as int), '/');
        let name = "/"@ + parts[0];
        if msg.retained && parts.len() == 1 {
            if known.contains(name) || contains_seq(base, "/"@) {
                r is Ignore
            } else {
                r matches MqttMessageAction::UnpublishStale(m) && m.is(prefix + parts[0], Seq::empty(), true, 1)
            }
        } else if !msg.retained && parts.len() == 2 && parts[1] == SET_STATE_TOPIC@ {
            if !known.contains(name) {
                r matches MqttMessageAction::UnknownContainer(n) && n@ == name
            } else {
                match request_of(msg.payload@) {
                    Some(req) => r matches MqttMessageAction::Request { container_name, docker_name, request }
                        && container_name@ == name && docker_name@ == parts[0] && request == req,
                    None => r matches MqttMessageAction::UnknownRequest { container_name, payload }
                        && container_name@ == name && payload@ == msg.payload@,
                }
            }
        } else {
            r is Ignore
        }
    }
}

/// Decides what to do with a message received from the broker.
pub fn mqtt_message_action(settings: &Settings, registry: &ContainerRegistry, msg: &MqttMessage) -> (r:
    MqttMessageAction)
    ensures
        message_action_holds(r, settings.mqtt.base_topic@, registry@.dom(), *msg),
{
    proof {
        reveal_strlit("set");
        reveal_strlit("");
    }
    let base = &settings.mqtt.base_topic;
    let prefix = base.clone().concat("/");
    let rest = match strip_prefix_exec(msg.topic.as_str(), prefix.as_str()) {
        Some(rest) => rest,
        None => {
            return MqttMessageAction::Ignore;
        },
    };
    proof {
        crate::text::lemma_split_nonempty(rest@, '/');
    }
    let parts = split_exec(rest.as_str(), '/');
    let ghost pv = views(parts@);
    assert(pv[0] == parts@[0]@);
    let name = to_owned_string("/").concat(parts[0].as_str());
    if msg.retained && parts.len() == 1 {
        if registry.contains(name.as_str()) || contains_str(base.as_str(), "/") {
            return MqttMessageAction::Ignore;
        }
        let topic = prefix.concat(parts[0].as_str());
        assert(""@ =~= Seq::<char>::empty());
        return MqttMessageAction::UnpublishStale(MqttMessage::new(topic, to_owned_string(""), true, 1));
    }
    if !msg.retained && parts.len() == 2 && {
        assert(pv[1] == parts@[1]@);
        str_eq(parts[1].as_str(), SET_STATE_TOPIC)
    } {
        if !registry.contains(name.as_str()) {
            return MqttMessageAction::UnknownContainer(name);
        }
        match parse_request(msg.payload.as_str()) {
            Some(request) => MqttMessageAction::Request {
                container_name: name,
                docker_name: parts[0].clone(),
                request,
            },
            None => MqttMessageAction::UnknownRequest { container_name: name, payload: msg.payload.clone() },
        }
    } else {
        MqttMessageAction::Ignore
    }
}


/// The parts of a Docker event that the bridge reads.
pub struct DockerEvent {
    /// The event concerns a container.
    pub is_container: bool,
    pub action: Option<String>,
    /// The actor's `name` attribute: the container's name without leading slash.
    pub name: Option<String>,
    /// The actor's `image` attribute.
    pub image: Option<String>,
    /// The actor's `oldName` attribute, set on renames.
    pub old_name: Option<String>,
}

/// What to do about a Docker event.
#[derive(Debug)]
pub enum DockerEventAction {
    Ignore,
    /// A container was created: fetch its stats and inspect and add it.
    Create { container_name: String, image: Option<String> },
    /// A container was destroyed: remove it.
    Destroy(String),
    /// A container was renamed.
    Rename { old_name: String, new_name: String },
    /// A container changed its run state: poll now.
    ForcePoll,
}

/// The action to take on a Docker event: container events that carry a name are
/// told apart by their action; the name gets the leading slash Docker leaves out in
/// events.
pub open spec fn docker_event_action_holds(r: DockerEventAction, event: DockerEvent) -> bool {
    if !event.is_container || event.name is None {
        r is Ignore
    } else {
        let name = "/"@ + event.name->0@;
        match event.action {
            Some(action) => if action@ == DOCKER_EVENT_ACTION_CREATE@ {
                r matches DockerEventAction::Create { container_name, image }
                    && container_name@ == name && image == event.image
            } else if action@ == DOCKER_EVENT_ACTION_DESTROY@ {
                r matches DockerEventAction::Destroy(n) && n@ == name
            } else if action@ == DOCKER_EVENT_ACTION_RENAME@ {
                match event.old_name {
                    Some(old) => r matches DockerEventAction::Rename { old_name, new_name }
                        && old_name == old && new_name@ == name,
                    None => r is Ignore,
                }
            } else if action@ == DOCKER_EVENT_ACTION_START@ || action@ == DOCKER_EVENT_ACTION_STOP@
                || action@ == DOCKER_EVENT_ACTION_RESTART@ || action@ == DOCKER_EVENT_ACTION_PAUSE@
                || action@ == DOCKER_EVENT_ACTION_UNPAUSE@ {
                r is ForcePoll
            } else {
                r is Ignore
            },
            None => r is Ignore,
        }
    }
}

/// Decides what to do about a Docker event.
pub fn docker_event_action(event: DockerEvent) -> (r: DockerEventAction)
    ensures
        docker_event_action_holds(r, event),
{
    let ghost e = event;
    if !event.is_container {
        return DockerEventAction::Ignore;
    }
    let name = match &event.name {
        Some(n) => to_owned_string("/").concat(n.as_str()),
        None => {
            return DockerEventAction::Ignore;
        },
    };
    let action = match &event.action {
        Some(a) => a,
        None => {
            return DockerEventAction::Ignore;
        },
    };
    if str_eq(action.as_str(), DOCKER_EVENT_ACTION_CREATE) {
        DockerEventAction::Create { container_name: name, image: event.image }
    } else if str_eq(action.as_str(), DOCKER_EVENT_ACTION_DESTROY) {
        DockerEventAction::Destroy(name)
    } else if str_eq(action.as_str(), DOCKER_EVENT_ACTION_RENAME) {
        match event.old_name {
            Some(old_name) => DockerEventAction::Rename { old_name, new_name: name },
            None => DockerEventAction::Ignore,
        }
    } else if str_eq(action.as_str(), DOCKER_EVENT_ACTION_START) || str_eq(action.as_str(), DOCKER_EVENT_ACTION_STOP)
        || str_eq(action.as_str(), DOCKER_EVENT_ACTION_RESTART) || str_eq(action.as_str(), DOCKER_EVENT_ACTION_PAUSE)
        || str_eq(action.as_str(), DOCKER_EVENT_ACTION_UNPAUSE) {
        DockerEventAction::ForcePoll
    } else {
        DockerEventAction::Ignore
    }
}

/// The value of the first label with the given key.
pub open spec fn label_value(labels: Seq<(String, String)>, key: Seq<char>) -> Option<Seq<char>>
    decreases labels.len(),
{
    if labels.len() == 0 {
        None
    } else if labels[0].0@ == key {
        Some(labels[0].1@)
    } else {
        label_value(labels.drop_first(), key)
    }
}

/// Whether a container is bridged: always, unless filtering by label is on; then only
/// if its `gantry-crane.enable` label is `true`.
pub open spec fn is_enabled(settings: Settings, inspect: ContainerInspect) -> bool {
    if settings.filter_by_label {
        match inspect.config {
            Some(config) => match config.labels {
                Some(labels) => label_value(labels@, DOCKER_LABEL_FILTER@) == Some("true"@),
                None => false,
            },
            None => false,
        }
    } else {
        true
    }
}

/// Whether a container is bridged under the settings.
pub fn is_container_enabled(settings: &Settings, inspect: &ContainerInspect) -> (r: bool)
    ensures
        r == is_enabled(*settings, *inspect),
{
    if !settings.filter_by_label {
        return true;
    }
    let labels = match &inspect.config {
        Some(config) => match &config.labels {
            Some(labels) => labels,
            None => {
                return false;
            },
        },
        None => {
            return false;
        },
    };
    let n = labels.len();
    let mut i: usize = 0;
    assert(labels@.skip(0) =~= labels@);
    while i < n
        invariant
            n == labels@.len(),
            i <= n,
            settings.filter_by_label,
            inspect.config is Some,
            inspect.config->0.labels == Some(*labels),
            label_value(labels@, DOCKER_LABEL_FILTER@) == label_value(labels@.skip(i as int), DOCKER_LABEL_FILTER@),
        decreases n - i,
    {
        assert(labels@.skip(i as int)[0] == labels@[i as int]);
        assert(labels@.skip(i as int).drop_first() =~= labels@.skip(i + 1));
        if str_eq(labels[i].0.as_str(), DOCKER_LABEL_FILTER) {
            assert(label_value(labels@.skip(i as int), DOCKER_LABEL_FILTER@) == Some(labels@[i as int].1@));
            let r = str_eq(labels[i].1.as_str(), "true");
            assert(r == (labels@[i as int].1@ == "true"@));
            return r;
        }
        i = i + 1;
    }
    assert(labels@.skip(n as int).len() == 0);
    false
}

/// The topic filter that covers everything under the base topic: `<base>/#`.
pub fn clean_subscription_topic(settings: &Settings) -> (r: String)
    ensures
        r@ == settings.mqtt.base_topic@ + "/#"@,
{
    settings.mqtt.base_topic.clone().concat("/#")
}

/// While cleaning up: a received retained message under the base topic is cleared
/// with an empty retained QoS 1 message on the same topic; others are left alone.
pub fn clean_action(settings: &Settings, msg: &MqttMessage) -> (r: Option<MqttMessage>)
    ensures
        msg.retained && has_prefix(msg.topic@, settings.mqtt.base_topic@ + "/"@) ==> (r matches Some(m)
            && m.is(msg.topic@, Seq::empty(), true, 1)),
        !(msg.retained && has_prefix(msg.topic@, settings.mqtt.base_topic@ + "/"@)) ==> r is None,
{
    let prefix = settings.mqtt.base_topic.clone().concat("/");
    if msg.retained && starts_with(msg.topic.as_str(), prefix.as_str()) {
        proof {
            reveal_strlit("");
        }
        assert(""@ =~= Seq::<char>::empty());
        Some(MqttMessage::new(msg.topic.clone(), to_owned_string(""), true, 1))
    } else {
        None
    }
}

/// A container name as Docker's API expects it: without a leading slash.
pub open spec fn docker_name_of(name: Seq<char>) -> Seq<char> {
    if name.len() > 0 && name[0] == '/' {
        name.drop_first()
    } else {
        name
    }
}

/// The name without its leading slash, if it has one.
pub fn docker_name(name: &str) -> (r: String)
    ensures
        r@ == docker_name_of(name@),
{
    let n = name.unicode_len();
    if n > 0 && name.get_char(0) == '/' {
        assert(name@.subrange(1, n as int) =~= name@.drop_first());
        String::from_str(name.substring_char(1, n))
    } else {
        to_owned_string(name)
    }
}

} // verus!
