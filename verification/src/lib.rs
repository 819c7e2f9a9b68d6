//! Decision logic and data model of a Docker to MQTT bridge: container
//! bookkeeping, MQTT topic layout, Home Assistant discovery entities and the
//! state machines that drive polling and container recreation.

pub mod text;
pub mod args;
pub mod constants;
pub mod settings;
pub mod mqtt;
pub mod container;
pub mod events;
pub mod homeassistant;
pub mod registry;
pub mod gantry_crane;
pub mod recreate;
pub mod polling;
pub mod laws;
