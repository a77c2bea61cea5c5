//! The collector for OnlyFans. It knows its tracked users and finds nothing
//! for them yet.

use vstd::prelude::*;
use crate::collectors::{is_normalized, normalize, Collect, CollectError};
use crate::config::AppConfig;

verus! {

/// The collector for OnlyFans.
pub struct Collector {
    config: AppConfig,
}

impl Collector {
    /// The configuration that the collector was made with.
    pub closed spec fn config(&self) -> AppConfig {
        self.config
    }

    /// A collector that works under the configuration `config`.
    pub fn new(config: AppConfig) -> (res: Result<Self, CollectError>)
        ensures
            res is Ok,
            res->Ok_0.config() == config,
    {
        Ok(Collector { config })
    }

    /// The tracked users in the order in which they are processed.
    pub fn users(&self) -> (users: Vec<String>)
        ensures
            is_normalized(self.config().only_fans.users.deep_view(), users.deep_view()),
    {
        normalize(&self.config.only_fans.users)
    }
}

impl Collect for Collector {
    open spec fn name_spec(&self) -> Seq<char> {
        "Only Fans Collector"@
    }

    open spec fn enabled_spec(&self, conf: &AppConfig) -> bool {
        conf.only_fans.enabled
    }

    fn get_name(&self) -> (name: String) {
        "Only Fans Collector".to_owned()
    }

    fn is_enabled(&self, conf: &AppConfig) -> (enabled: bool) {
        conf.only_fans.enabled
    }
}

} // verus!
