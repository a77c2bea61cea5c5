//! The configuration that the collectors and the download pipeline consume.
//! It arrives parsed; reading and validating the file is the caller's part.

pub mod fantia;
pub mod only_fans;
pub mod reddit;

use vstd::prelude::*;
use crate::collectors::Collect;
use crate::config::fantia::Fantia;
use crate::config::only_fans::OnlyFans;
use crate::config::reddit::Reddit;

verus! {

/// Settings shared by all collectors.
#[derive(Debug)]
pub struct General {
    /// The root under which everything is stored.
    pub output_path: String,
    /// Whether each collector stores under a folder of its own.
    pub collector_subfolders: bool,
}

/// The whole configuration.
pub struct AppConfig {
    /// What all collectors share.
    pub general: General,
    /// The fan club collector's part.
    pub fantia: Fantia,
    /// The OnlyFans collector's part.
    pub only_fans: OnlyFans,
    /// The Reddit collector's part.
    pub reddit: Reddit,
}

impl General {
    /// Whether the two settings say the same.
    pub open spec fn agrees(&self, other: &Self) -> bool {
        &&& self.output_path@ == other.output_path@
        &&& self.collector_subfolders == other.collector_subfolders
    }
}

impl Default for General {
    fn default() -> (settings: Self)
        ensures
            settings.output_path@.len() == 0,
            !settings.collector_subfolders,
    {
        General { output_path: String::new(), collector_subfolders: false }
    }
}

impl Clone for General {
    fn clone(&self) -> (copy: Self)
        ensures
            copy.agrees(self),
    {
        General {
            output_path: self.output_path.clone(),
            collector_subfolders: self.collector_subfolders,
        }
    }
}

impl AppConfig {
    /// Whether the two configurations say the same.
    pub open spec fn agrees(&self, other: &Self) -> bool {
        &&& self.general.agrees(&other.general)
        &&& self.fantia.agrees(&other.fantia)
        &&& self.only_fans.agrees(&other.only_fans)
        &&& self.reddit.agrees(&other.reddit)
    }
}

impl Default for AppConfig {
    fn default() -> (config: Self)
        ensures
            config.general.output_path@.len() == 0,
            !config.general.collector_subfolders,
            !config.fantia.enabled,
            config.fantia.fan_clubs@.len() == 0,
            !config.only_fans.enabled,
            config.only_fans.users@.len() == 0,
            !config.reddit.enabled,
            config.reddit.users@.len() == 0,
            config.reddit.output_path is None,
    {
        AppConfig {
            general: General::default(),
            fantia: Fantia::default(),
            only_fans: OnlyFans::default(),
            reddit: Reddit::default(),
        }
    }
}

impl AppConfig {
    /// The folder under the output root in which a collector stores: the
    /// one that bears the collector's name.
    pub fn get_collector_outpath<C: Collect>(&self, collector: &C) -> (folder: String)
        ensures
            folder@ == collector.name_spec(),
    {
        collector.get_name()
    }
}

impl Clone for AppConfig {
    fn clone(&self) -> (copy: Self)
        ensures
            copy.agrees(self),
    {
        AppConfig {
            general: self.general.clone(),
            fantia: self.fantia.clone(),
            only_fans: self.only_fans.clone(),
            reddit: self.reddit.clone(),
        }
    }
}

} // verus!
