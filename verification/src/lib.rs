//! Collects downloadable media references from several content platforms and
//! plans their retrieval to local storage.

pub mod collectors;
pub mod config;
pub mod download;
pub mod errors;
pub mod filters;
pub mod text;
pub mod urls;

use vstd::prelude::*;
use crate::collectors::fantia_jp::Collector as FantiaCollector;
use crate::collectors::only_fans::Collector as OnlyFansCollector;
use crate::collectors::reddit::RedditCollector;
use crate::collectors::{CollectError, Collectors, Registered};
use crate::config::AppConfig;
use crate::download::{Manager, ManagerView, Phase, DEFAULT_BUFFER_SIZE};

verus! {

/// What a run is made of: the consumer of the download pipeline and the
/// registered collectors.
pub struct Started {
    pub manager: Manager,
    pub collectors: Collectors,
}

/// Whether `collectors` are the three collectors in the order in which they
/// are registered, Reddit, OnlyFans, fan clubs, each working under what
/// `config` says.
pub open spec fn is_register(collectors: Seq<Registered>, config: AppConfig) -> bool {
    &&& collectors.len() == 3
    &&& collectors[0] is Reddit
    &&& collectors[0]->Reddit_0.config().agrees(&config)
    &&& collectors[1] is OnlyFans
    &&& collectors[1]->OnlyFans_0.config().agrees(&config)
    &&& collectors[2] is Fantia
    &&& collectors[2]->Fantia_0.config().agrees(&config)
}

/// Sets up a run under the configuration `config`: a consumer that writes
/// under the general output path behind a queue of the default size, and the
/// three collectors.
pub fn start(config: AppConfig) -> (res: Result<Started, CollectError>)
    ensures
        res is Ok,
        res->Ok_0.manager@ == (ManagerView {
            out_path: config.general.output_path@,
            buffer_size: DEFAULT_BUFFER_SIZE as nat,
            phase: Phase::Idle,
        }),
        is_register(res->Ok_0.collectors.collectors@, config),
{
    let manager = Manager::new(config.general.output_path.as_str(), DEFAULT_BUFFER_SIZE);
    let reddit = match RedditCollector::new(config.clone()) {
        Ok(collector) => collector,
        Err(error) => {
            return Err(error);
        },
    };
    let only_fans = match OnlyFansCollector::new(config.clone()) {
        Ok(collector) => collector,
        Err(error) => {
            return Err(error);
        },
    };
    let fantia = match FantiaCollector::new(config) {
        Ok(collector) => collector,
        Err(error) => {
            return Err(error);
        },
    };
    let mut collectors: Vec<Registered> = Vec::new();
    collectors.push(Registered::Reddit(reddit));
    collectors.push(Registered::OnlyFans(only_fans));
    collectors.push(Registered::Fantia(fantia));
    Ok(Started { manager, collectors: Collectors { collectors } })
}

} // verus!
