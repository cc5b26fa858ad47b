use vstd::prelude::*;

use crate::build_info::BuildInfo;
use crate::config::Config;

verus! {

/// What every request handler shares: the configuration and the build metadata, both read
/// once at startup.
pub struct AppState {
    pub config: Config,
    pub build_info: BuildInfo,
}

impl AppState {
    pub fn new(config: Config, build_info: BuildInfo) -> (res: AppState)
        ensures
            res.config == config,
            res.build_info == build_info,
    {
        AppState { config, build_info }
    }
}

} // verus!
