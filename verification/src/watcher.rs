//! The configuration hot-reload decision: which observed file changes
//! mean the configuration must be read again. Watching the directory and
//! delivering the debounced change events is the host's side.

use vstd::prelude::*;
use crate::strutil::str_eq_str;

verus! {

/// Message identifier the host posts to itself for a reload, above the
/// OS's private-message base.
pub const WM_CONFIG_RELOAD: u32 = 0x8000 + 10;

/// How long the host lets file changes settle before reporting them, in
/// milliseconds.
pub const DEBOUNCE_TIMEOUT_MS: u64 = 250;

/// The two files whose change forces a reload.
pub open spec fn spec_config_file_paths(config_dir: Seq<char>) -> (Seq<char>, Seq<char>) {
    (config_dir + "/config.jsonc"@, config_dir + "/config.json"@)
}

/// Whether a batch of changed paths touches the configuration: some path
/// is exactly the preferred or the fallback configuration file.
pub open spec fn spec_should_reload(paths: Seq<String>, config_dir: Seq<char>) -> bool {
    exists|i: int| 0 <= i < paths.len()
        && ((#[trigger] paths[i])@ == spec_config_file_paths(config_dir).0
            || paths[i]@ == spec_config_file_paths(config_dir).1)
}

/// Decide whether a batch of changed paths must trigger a reload.
pub fn should_reload(event_paths: &Vec<String>, config_dir: &str) -> (r: bool)
    ensures
        r == spec_should_reload(event_paths@, config_dir@),
{
    let mut jsonc_path = String::from_str(config_dir);
    jsonc_path.append("/config.jsonc");
    let mut json_path = String::from_str(config_dir);
    json_path.append("/config.json");

    let mut i: usize = 0;
    while i < event_paths.len()
        invariant
            i <= event_paths@.len(),
            jsonc_path@ == config_dir@ + "/config.jsonc"@,
            json_path@ == config_dir@ + "/config.json"@,
            forall|j: int| 0 <= j < i ==> ((#[trigger] event_paths@[j])@
                != spec_config_file_paths(config_dir@).0
                && event_paths@[j]@ != spec_config_file_paths(config_dir@).1),
        decreases event_paths@.len() - i,
    {
        if str_eq_str(event_paths[i].as_str(), jsonc_path.as_str())
            || str_eq_str(event_paths[i].as_str(), json_path.as_str()) {
            return true;
        }
        i += 1;
    }
    false
}

} // verus!
