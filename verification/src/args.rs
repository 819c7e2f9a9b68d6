use vstd::prelude::*;

use crate::constants::CONFIG_FILE;

verus! {

/// Command line switches of the bridge.
pub struct GantryCraneArgs {
    /// Remove all retained MQTT topics instead of running the bridge.
    pub clean: bool,
    /// Path of the configuration file.
    pub config: Option<String>,
    /// Print the version and exit.
    pub version: bool,
}

/// What the process does with its command line.
#[derive(Debug, PartialEq, Eq, Clone, Copy)]
pub enum RunMode {
    PrintVersion,
    Clean,
    Bridge,
}

impl GantryCraneArgs {
    /// The mode the switches select: the version switch wins over the clean switch.
    pub open spec fn mode_of(self) -> RunMode {
        if self.version {
            RunMode::PrintVersion
        } else if self.clean {
            RunMode::Clean
        } else {
            RunMode::Bridge
        }
    }

    /// The configuration file named on the command line, or the default one.
    pub open spec fn config_path_of(self) -> Seq<char> {
        match self.config {
            Some(p) => p@,
            None => CONFIG_FILE@,
        }
    }

    pub fn mode(&self) -> (r: RunMode)
        ensures
            r == self.mode_of(),
    {
        if self.version {
            RunMode::PrintVersion
        } else if self.clean {
            RunMode::Clean
        } else {
            RunMode::Bridge
        }
    }

    pub fn config_path(&self) -> (r: &str)
        ensures
            r@ == self.config_path_of(),
    {
        match &self.config {
            Some(p) => p.as_str(),
            None => CONFIG_FILE,
        }
    }
}

} // verus!
