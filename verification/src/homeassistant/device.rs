//! The Home Assistant device that stands for a container.

use vstd::prelude::*;

use crate::homeassistant::entity::opt_view;
use crate::text::{replace_char, replace_char_exec, to_owned_string};

verus! {

/// A device in Home Assistant's device registry.
#[derive(Debug)]
pub struct Device {
    pub name: String,
    pub identifiers: Vec<String>,
    pub manufacturer: Option<String>,
    pub model: Option<String>,
    pub sw_version: Option<String>,
}

/// The device's fields as strings.
pub struct DeviceView {
    pub name: Seq<char>,
    pub identifiers: Seq<Seq<char>>,
    pub manufacturer: Option<Seq<char>>,
    pub model: Option<Seq<char>>,
    pub sw_version: Option<Seq<char>>,
}

impl View for Device {
    type V = DeviceView;

    open spec fn view(&self) -> DeviceView {
        DeviceView {
            name: self.name@,
            identifiers: self.identifiers@.map_values(|s: String| s@),
            manufacturer: opt_view(self.manufacturer),
            model: opt_view(self.model),
            sw_version: opt_view(self.sw_version),
        }
    }
}

/// The identifier of a device with the given name: `gc_` and the name with spaces
/// replaced by underscores.
pub open spec fn device_identifier(name: Seq<char>) -> Seq<char> {
    "gc_"@ + replace_char(name, ' ', '_')
}

impl Device {
    /// A device with a single identifier derived from its name, and no model or
    /// software version.
    pub fn new(name: String, manufacturer: Option<String>) -> (r: Self)
        ensures
            r.name == name,
            r.manufacturer == manufacturer,
            r@.identifiers == seq![device_identifier(name@)],
            r.model is None,
            r.sw_version is None,
    {
        proof {
            reveal_strlit("_");
        }
        let id = to_owned_string("gc_").concat(replace_char_exec(name.as_str(), ' ', "_").as_str());
        let mut identifiers: Vec<String> = Vec::new();
        identifiers.push(id);
        let r = Device { name, identifiers, manufacturer, model: None, sw_version: None };
        assert(r@.identifiers =~= seq![device_identifier(r.name@)]);
        r
    }
}

} // verus!
