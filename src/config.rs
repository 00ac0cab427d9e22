//! A profile's settings, as read from its configuration file.
use crate::sync::FileBundle;
use crate::types::CreateConfig;
use vstd::prelude::*;

verus! {

/// The settings of a profile: its assistant's name and model, the file
/// holding its instructions (relative to the profile's directory), and its
/// bundles.
#[derive(Debug)]
pub struct Config {
    pub name: String,
    pub model: String,
    pub instructions_file: String,
    pub file_bundles: Vec<FileBundle>,
}

impl From<&Config> for CreateConfig {
    fn from(config: &Config) -> (r: CreateConfig) {
        CreateConfig { name: config.name.clone(), model: config.model.clone() }
    }
}

impl vstd::std_specs::convert::FromSpecImpl<&Config> for CreateConfig {
    open spec fn obeys_from_spec() -> bool {
        true
    }

    open spec fn from_spec(config: &Config) -> CreateConfig {
        CreateConfig { name: config.name, model: config.model }
    }
}

} // verus!
