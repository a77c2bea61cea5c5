//! Faults of the configuration file.

use vstd::prelude::*;

verus! {

/// An error with the configuration file.
#[derive(Debug)]
pub enum AppConfigError {
    /// A valid configuration file exists but a value is missing.
    MissingConfiguration(String),
    /// A valid configuration file exists but several values are missing.
    MissingConfigurations(Vec<String>),
    /// A configuration file is missing.
    MissingConfigFile(String),
}

} // verus!
