//! Process-wide configuration: remote base URL, API token, watched folder and
//! log level. Resolved once at startup and immutable afterwards; every worker
//! receives it by value or shared reference, so no upload can ever observe a
//! stale or half-updated credential.

use vstd::prelude::*;
use vstd::string::StringExecFns;

verus! {

/// The immutable process configuration. Constructed once at startup from the
/// configuration source and never mutated afterwards.
pub struct Settings {
    /// API token for the remote service; sent as `Authorization: Token <token>`.
    pub token: String,
    /// Base URL of the remote service.
    pub url: String,
    /// Absolute path of the folder to watch for new files.
    pub folder: String,
    /// Log level name; defaults to `debug` when the source omits it.
    pub loglevel: String,
}

/// The log level used when the configuration source does not name one.
pub fn default_loglevel() -> (s: String)
    ensures
        s@ == "debug"@,
{
    String::from_str("debug")
}

impl Settings {
    /// Builds the configuration from the values the startup code read,
    /// filling in the default log level where the source gave none.
    pub fn new(token: String, url: String, folder: String, loglevel: Option<String>) -> (s: Settings)
        ensures
            s.token@ == token@,
            s.url@ == url@,
            s.folder@ == folder@,
            (match loglevel {
                Option::Some(level) => s.loglevel@ == level@,
                Option::None => s.loglevel@ == "debug"@,
            }),
    {
        let level = match loglevel {
            Option::Some(level) => level,
            Option::None => default_loglevel(),
        };
        Settings { token, url, folder, loglevel: level }
    }
}

} // verus!
