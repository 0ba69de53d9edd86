//! Resolution of the application's on-disk locations from its base
//! directory. The base directory itself (a command-line override or the
//! user's home) is the host's to find; every derived location is a pure
//! function of it.

use vstd::prelude::*;
use vstd::string::StringExecFns;

verus! {

/// The application's resolved locations and mode flags.
#[derive(Clone, Debug)]
pub struct StaticArgs {
    pub uplink_path: String,
    pub light_path: String,
    pub cache_path: String,
    pub config_path: String,
    pub warp_path: String,
    pub logger_path: String,
    pub tesseract_path: String,
    pub use_mock: bool,
    pub mock_cache_path: String,
    pub id_path: String,
    pub experimental: bool,
    pub login_config_path: String,
}

/// A path one component below `base`.
fn join_path(base: &String, name: &str) -> (r: String)
    ensures
        r@ == base@ + "/"@ + name@,
{
    let mut s = base.clone();
    s = s.concat("/");
    s = s.concat(name);
    s
}

impl StaticArgs {
    /// Resolves every location from the base directory.
    pub fn resolve(base: String, use_mock: bool, experimental: bool) -> (r: StaticArgs)
        ensures
            r.uplink_path@ == base@,
            r.light_path@ == base@,
            r.cache_path@ == base@ + "/"@ + "state.json"@,
            r.config_path@ == base@ + "/"@ + "Config.json"@,
            r.warp_path@ == base@ + "/"@ + "warp"@,
            r.logger_path@ == base@ + "/"@ + "debug.log"@,
            r.tesseract_path@ == base@ + "/"@ + "warp"@ + "/"@ + "tesseract.json"@,
            r.id_path@ == base@ + "/"@ + "warp"@ + "/"@ + ".id"@,
            r.mock_cache_path@ == base@ + "/"@ + "mock-state.json"@,
            r.login_config_path@ == base@ + "/"@ + "login_config.json"@,
            r.use_mock == use_mock,
            r.experimental == experimental,
    {
        let warp_path = join_path(&base, "warp");
        StaticArgs {
            uplink_path: base.clone(),
            light_path: base.clone(),
            cache_path: join_path(&base, "state.json"),
            config_path: join_path(&base, "Config.json"),
            logger_path: join_path(&base, "debug.log"),
            tesseract_path: join_path(&warp_path, "tesseract.json"),
            id_path: join_path(&warp_path, ".id"),
            mock_cache_path: join_path(&base, "mock-state.json"),
            login_config_path: join_path(&base, "login_config.json"),
            warp_path,
            use_mock,
            experimental,
        }
    }
}

} // verus!
