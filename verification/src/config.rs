//! Settings of the visit history.

use vstd::prelude::*;
use crate::models::HistorySortMode;
use crate::paths::{joined_path, path_join};
use crate::text::{to_chars, trim, trimmed_of};

verus! {

/// Settings of the visit history.
#[derive(Clone, Copy, Debug)]
pub struct HistoryConfig {
    /// The most entries that the history keeps.
    pub max_entries: usize,
    /// How the history view ranks its entries.
    pub sort_mode: HistorySortMode,
    /// The number of days over which the weight of a visit falls to its floor.
    pub time_decay_days: u32,
    /// Entries visited less often than this are dropped by a cleanup.
    pub min_frequency_threshold: u32,
}

impl Default for HistoryConfig {
    fn default() -> (config: Self)
        ensures
            config.max_entries == 100,
            config.sort_mode == HistorySortMode::FrequencyRecent,
            config.time_decay_days == 30,
            config.min_frequency_threshold == 1,
    {
        HistoryConfig {
            max_entries: 100,
            sort_mode: HistorySortMode::FrequencyRecent,
            time_decay_days: 30,
            min_frequency_threshold: 1,
        }
    }
}

/// The settings in force: the defaults.
pub fn get_history_config() -> (config: HistoryConfig)
    ensures
        config.max_entries == 100,
        config.sort_mode == HistorySortMode::FrequencyRecent,
        config.time_decay_days == 30,
        config.min_frequency_threshold == 1,
{
    HistoryConfig::default()
}

/// The name of the history file.
pub const HISTORY_FILE: &'static str = "quickswitch.history.bin";

/// The name of the legacy list of paths, one path to a line.
pub const LEGACY_HISTORY_FILE: &'static str = "quickswitch.history";

/// The name to which the legacy list is renamed once it is migrated.
pub const LEGACY_BACKUP_FILE: &'static str = "quickswitch.history.bak";

/// What the environment says of where data may be kept.
#[derive(Debug)]
pub struct Environment {
    /// The directory that the user asks for, if they ask for one.
    pub data_dir_override: Option<String>,
    /// The home directory, if it is known.
    pub home: Option<String>,
    /// The directory for the data of applications, if one is set.
    pub data_home: Option<String>,
    /// The directory for temporary files.
    pub temp_dir: String,
}

/// The text of `value`, where it is there and not blank.
pub open spec fn given(value: Option<String>) -> Option<Seq<char>> {
    match value {
        Some(text) if trimmed_of(text@).len() > 0 => Some(text@),
        _ => None,
    }
}

/// The directory in which the navigator keeps its data: the one asked for,
/// where one is asked for and the name is not blank; else
/// `.local/share/quickswitch` under the home directory; else `quickswitch`
/// under the directory for the data of applications; else `quickswitch` under
/// the directory for temporary files.
pub open spec fn data_dir_of(environment: Environment) -> Seq<char> {
    match given(environment.data_dir_override) {
        Some(dir) => dir,
        None => match (environment.home, environment.data_home) {
            (Some(home), _) => joined_path(
                joined_path(joined_path(home@, ".local"@), "share"@),
                "quickswitch"@,
            ),
            (None, Some(data)) => joined_path(data@, "quickswitch"@),
            (None, None) => joined_path(environment.temp_dir@, "quickswitch"@),
        },
    }
}

/// The directory in which the navigator keeps its data.
pub fn get_data_dir(environment: &Environment) -> (dir: String)
    ensures
        dir@ == data_dir_of(*environment),
{
    match &environment.data_dir_override {
        Some(asked) => {
            let name = to_chars(trim(asked.as_str()).as_str());
            if name.len() > 0 {
                return asked.clone();
            }
        },
        None => {},
    }
    get_default_data_dir(environment)
}

/// The directory in which the navigator keeps its data where none is asked
/// for.
pub fn get_default_data_dir(environment: &Environment) -> (dir: String)
    ensures
        dir@ == match (environment.home, environment.data_home) {
            (Some(home), _) => joined_path(
                joined_path(joined_path(home@, ".local"@), "share"@),
                "quickswitch"@,
            ),
            (None, Some(data)) => joined_path(data@, "quickswitch"@),
            (None, None) => joined_path(environment.temp_dir@, "quickswitch"@),
        },
{
    match (&environment.home, &environment.data_home) {
        (Some(home), _) => {
            let local = path_join(home.as_str(), ".local");
            let share = path_join(local.as_str(), "share");
            path_join(share.as_str(), "quickswitch")
        },
        (None, Some(data)) => path_join(data.as_str(), "quickswitch"),
        (None, None) => path_join(environment.temp_dir.as_str(), "quickswitch"),
    }
}

/// The path of the file named `name` among the data of the navigator: in the
/// data directory, or in the directory for temporary files where the data
/// directory cannot be had.
pub fn data_file_path(data_dir: Option<&str>, temp_dir: &str, name: &str) -> (path: String)
    ensures
        path@ == match data_dir {
            Some(dir) => joined_path(dir@, name@),
            None => joined_path(temp_dir@, name@),
        },
{
    match data_dir {
        Some(dir) => path_join(dir, name),
        None => path_join(temp_dir, name),
    }
}

} // verus!
