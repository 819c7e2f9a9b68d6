//! Names, topics and keywords shared across the library.

use vstd::prelude::*;

verus! {

/// The application's name; default MQTT client id, base topic and Home Assistant node id.
pub const APP_NAME: &'static str = "gantry-crane";

/// Name of the configuration file read when no path is given.
pub const CONFIG_FILE: &'static str = "gantry-crane.toml";

/// Subtopic of the base topic that carries the bridge's availability.
pub const AVAILABILITY_TOPIC: &'static str = "availability";

/// Subtopic of a container's topic on which container requests arrive.
pub const SET_STATE_TOPIC: &'static str = "set";

/// Availability payload while connected.
pub const STATE_ONLINE: &'static str = "online";

/// Availability payload after disconnecting.
pub const STATE_OFFLINE: &'static str = "offline";

/// Value used for state, health and image when they are not known.
pub const UNKNOWN: &'static str = "unknown";

/// Docker label that selects containers when filtering by label.
pub const DOCKER_LABEL_FILTER: &'static str = "gantry-crane.enable";

/// Docker event actions.
pub const DOCKER_EVENT_ACTION_CREATE: &'static str = "create";
pub const DOCKER_EVENT_ACTION_DESTROY: &'static str = "destroy";
pub const DOCKER_EVENT_ACTION_RENAME: &'static str = "rename";
pub const DOCKER_EVENT_ACTION_START: &'static str = "start";
pub const DOCKER_EVENT_ACTION_STOP: &'static str = "stop";
pub const DOCKER_EVENT_ACTION_RESTART: &'static str = "restart";
pub const DOCKER_EVENT_ACTION_PAUSE: &'static str = "pause";
pub const DOCKER_EVENT_ACTION_UNPAUSE: &'static str = "unpause";

/// Network mode of containers that share the host's network.
pub const DOCKER_NETWORK_MODE_HOST: &'static str = "host";

/// Payloads of container requests.
pub const CONTAINER_REQUEST_START: &'static str = "start";
pub const CONTAINER_REQUEST_STOP: &'static str = "stop";
pub const CONTAINER_REQUEST_RESTART: &'static str = "restart";
pub const CONTAINER_REQUEST_PAUSE: &'static str = "pause";
pub const CONTAINER_REQUEST_UNPAUSE: &'static str = "unpause";
pub const CONTAINER_REQUEST_RECREATE: &'static str = "recreate";
pub const CONTAINER_REQUEST_PULL_RECREATE: &'static str = "pull_recreate";

/// Capacity of the internal event channel.
pub const BUFFER_SIZE_EVENT_CHANNEL: usize = 1024;

/// Capacity of the MQTT receive stream.
pub const BUFFER_SIZE_MQTT_RECV: usize = 384;

/// Number of messages the MQTT client buffers while disconnected.
pub const BUFFER_SIZE_MQTT_SEND: i32 = 384;

} // verus!
