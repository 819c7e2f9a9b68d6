//! Configuration of the bridge and the mapping of environment variable names onto
//! configuration keys.

use vstd::prelude::*;

use crate::constants::APP_NAME;
use crate::text::{replace_all, replace_all_exec, to_lowercase, to_owned_string, unicode_lowercase};

verus! {

/// All settings of the bridge.
#[derive(Debug, PartialEq, Eq)]
pub struct Settings {
    /// Seconds between two polls of all containers.
    pub poll_interval: u32,
    /// Only bridge containers labelled `gantry-crane.enable=true`.
    pub filter_by_label: bool,
    pub mqtt: MqttSettings,
    pub homeassistant: HomeAssistantSettings,
}

/// Connection settings of the MQTT broker.
#[derive(Debug, PartialEq, Eq)]
pub struct MqttSettings {
    pub host: String,
    pub port: u16,
    pub username: Option<String>,
    pub password: Option<String>,
    pub websocket: bool,
    pub tls_encryption: bool,
    pub ca_certificate: Option<String>,
    pub client_certificate: Option<String>,
    pub client_key: Option<String>,
    pub client_id: String,
    pub base_topic: String,
}

/// Settings of the Home Assistant discovery integration.
#[derive(Debug, Clone, PartialEq, Eq)]
pub struct HomeAssistantSettings {
    pub active: bool,
    pub base_topic: String,
    pub node_id: String,
}

impl MqttSettings {
    /// The settings hold their default values.
    pub open spec fn is_default(self) -> bool {
        &&& self.host@ == "localhost"@
        &&& self.port == 1883
        &&& self.username is None
        &&& self.password is None
        &&& !self.websocket
        &&& !self.tls_encryption
        &&& self.ca_certificate is None
        &&& self.client_certificate is None
        &&& self.client_key is None
        &&& self.client_id@ == APP_NAME@
        &&& self.base_topic@ == APP_NAME@
    }
}

impl HomeAssistantSettings {
    /// The settings hold their default values.
    pub open spec fn is_default(self) -> bool {
        &&& !self.active
        &&& self.base_topic@ == "homeassistant"@
        &&& self.node_id@ == APP_NAME@
    }
}

impl Settings {
    /// The settings hold their default values.
    pub open spec fn is_default(self) -> bool {
        &&& self.poll_interval == 60
        &&& !self.filter_by_label
        &&& self.mqtt.is_default()
        &&& self.homeassistant.is_default()
    }
}

impl Default for MqttSettings {
    fn default() -> (r: Self)
        ensures
            r.is_default(),
    {
        MqttSettings {
            host: to_owned_string("localhost"),
            port: 1883,
            username: None,
            password: None,
            websocket: false,
            tls_encryption: false,
            ca_certificate: None,
            client_certificate: None,
            client_key: None,
            client_id: to_owned_string(APP_NAME),
            base_topic: to_owned_string(APP_NAME),
        }
    }
}

impl Default for HomeAssistantSettings {
    fn default() -> (r: Self)
        ensures
            r.is_default(),
    {
        HomeAssistantSettings {
            active: false,
            base_topic: to_owned_string("homeassistant"),
            node_id: to_owned_string(APP_NAME),
        }
    }
}

impl Default for Settings {
    fn default() -> (r: Self)
        ensures
            r.is_default(),
    {
        Settings {
            poll_interval: 60,
            filter_by_label: false,
            mqtt: MqttSettings::default(),
            homeassistant: HomeAssistantSettings::default(),
        }
    }
}

/// ASCII lowercase of a single character; other characters are unchanged.
pub open spec fn ascii_lower(c: char) -> char {
    if 'A' <= c && c <= 'Z' {
        ((c as u32) + 32) as char
    } else {
        c
    }
}

/// `prefix` starts `s` when ASCII letters are compared without regard to case.
pub open spec fn has_prefix_ignore_ascii_case(s: Seq<char>, prefix: Seq<char>) -> bool {
    &&& prefix.len() <= s.len()
    &&& forall|i: int| 0 <= i < prefix.len() ==> ascii_lower(#[trigger] s[i]) == ascii_lower(prefix[i])
}

/// Every character of `s` is ASCII.
pub open spec fn all_ascii(s: Seq<char>) -> bool {
    forall|i: int| 0 <= i < s.len() ==> (#[trigger] s[i] as u32) < 128
}

/// Calls `figment::value::UncasedStr::starts_with`, which compares the first
/// `prefix.len()` bytes of `s` with `prefix`, ASCII case-insensitively. For an ASCII
/// `prefix` this is a comparison of the first characters of `s`, as stated.
#[verifier::external_body]
fn uncased_starts_with(s: &str, prefix: &str) -> (r: bool)
    requires
        all_ascii(prefix@),
    ensures
        r == has_prefix_ignore_ascii_case(s@, prefix@),
{
    figment::value::UncasedStr::new(s).starts_with(prefix)
}

/// The configuration key an environment variable name stands for: a name that starts
/// with `mqtt_` or `homeassistant_` (in any ASCII case) is lowercased and each
/// occurrence of that prefix becomes the section `mqtt.` or `homeassistant.`; other
/// names are kept as they are.
pub open spec fn env_key_path(key: Seq<char>) -> Seq<char> {
    if has_prefix_ignore_ascii_case(key, "mqtt_"@) {
        replace_all(unicode_lowercase(key), "mqtt_"@, "mqtt."@)
    } else if has_prefix_ignore_ascii_case(key, "homeassistant_"@) {
        replace_all(unicode_lowercase(key), "homeassistant_"@, "homeassistant."@)
    } else {
        key
    }
}

/// Maps the name of an environment variable onto the configuration key it sets, so
/// that `MQTT_HOST` sets `mqtt.host` and `HOMEASSISTANT_ACTIVE` sets
/// `homeassistant.active`.
pub fn map_env_key(key: &str) -> (r: String)
    ensures
        r@ == env_key_path(key@),
{
    proof {
        reveal_strlit("mqtt_");
        reveal_strlit("mqtt.");
        reveal_strlit("homeassistant_");
        reveal_strlit("homeassistant.");
    }
    if uncased_starts_with(key, "mqtt_") {
        let lower = to_lowercase(key);
        replace_all_exec(lower.as_str(), "mqtt_", "mqtt.")
    } else if uncased_starts_with(key, "homeassistant_") {
        let lower = to_lowercase(key);
        replace_all_exec(lower.as_str(), "homeassistant_", "homeassistant.")
    } else {
        to_owned_string(key)
    }
}

} // verus!
