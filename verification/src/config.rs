//! Configuration: a single `work-path` directory, read from a TOML file at
//! a platform-dependent default location. Reading the file itself is the
//! host's job; this module parses the contents and decides the fallback.

use vstd::prelude::*;

verus! {

/// The directory name under the platform configuration directory that
/// holds this tool's configuration.
pub open spec fn config_dir_name() -> Seq<char> {
    "fersk"@
}

/// The configuration file's name inside its directory.
pub open spec fn config_file_name() -> Seq<char> {
    "config.toml"@
}

/// The `work-path` string entry of a TOML document, when the document
/// parses and carries one; the result is a pure function of the text.
pub uninterp spec fn toml_work_path(s: Seq<char>) -> Option<Seq<char>>;

/// Relies on toml::from_str for parsing the document into a toml::Table,
/// and on toml::map::Map::get and toml::Value::as_str for extracting the
/// `work-path` string entry.
#[verifier::external_body]
fn parse_work_path(s: &str) -> (r: Option<String>)
    ensures
        r.deep_view() == toml_work_path(s@),
{
    match toml::from_str::<toml::Table>(s) {
        Ok(table) => match table.get("work-path") {
            Some(value) => match value.as_str() {
                Some(p) => Some(p.to_string()),
                None => None,
            },
            None => None,
        },
        Err(_) => None,
    }
}

/// Relies on dirs::config_dir. The result depends on the user's
/// environment, so nothing is promised of it.
#[verifier::external_body]
fn os_config_dir() -> (r: Option<String>) {
    dirs::config_dir().map(|p| p.to_string_lossy().into_owned())
}

/// Relies on dirs::cache_dir. The result depends on the user's
/// environment, so nothing is promised of it.
#[verifier::external_body]
fn os_cache_dir() -> (r: Option<String>) {
    dirs::cache_dir().map(|p| p.to_string_lossy().into_owned())
}

/// Why a configuration could not be produced.
#[derive(Debug, Clone, Copy, PartialEq, Eq)]
pub enum ConfigError {
    /// The configuration text does not parse, or carries no `work-path`
    /// string entry.
    Invalid,
    /// No file was given and the platform names no default cache
    /// directory to fall back to.
    NoCacheDirectory,
}

/// The configuration: the directory under which all workspaces and lock
/// files live.
#[derive(Debug)]
pub struct Config {
    pub work_path: String,
}

/// The platform's configuration directory for this tool, when the
/// platform names one: the configuration directory joined with the tool's
/// own directory name.
pub fn get_default_config_path() -> (r: Option<String>)
    ensures
        r matches Some(p) ==> exists|d: Seq<char>| p@ == d + "/"@ + config_dir_name(),
{
    match os_config_dir() {
        Some(d) => {
            let ghost base = d@;
            let mut p = d;
            p.append("/");
            p.append("fersk");
            proof {
                assert(p@ == base + "/"@ + config_dir_name());
            }
            Some(p)
        },
        None => None,
    }
}

impl Config {
    /// Parse the contents of a configuration file: its `work-path` entry
    /// becomes the work path; a text without one is rejected.
    pub fn from_file(text: &str) -> (r: Result<Config, ConfigError>)
        ensures
            match r {
                Ok(c) => toml_work_path(text@) == Some(c.work_path@),
                Err(e) => toml_work_path(text@) is None && e == ConfigError::Invalid,
            },
    {
        match parse_work_path(text) {
            Some(p) => Ok(Config { work_path: p }),
            None => Err(ConfigError::Invalid),
        }
    }

    /// The default directory to look for the configuration file in, when
    /// the platform names one.
    pub fn default_location() -> (r: Option<String>)
        ensures
            r matches Some(p) ==> exists|d: Seq<char>| p@ == d + "/"@ + config_dir_name(),
    {
        get_default_config_path()
    }

    /// The configuration file's path inside a location directory.
    pub fn path_from_location(location: &str) -> (r: String)
        ensures
            r@ == location@ + "/"@ + config_file_name(),
    {
        let mut p = String::from_str(location);
        p.append("/");
        p.append("config.toml");
        p
    }

    /// Produce the configuration from a location: from the configuration
    /// file's contents when the file exists there, else from the
    /// platform's default cache directory.
    pub fn from_location(contents: Option<&String>) -> (r: Result<Config, ConfigError>)
        ensures
            contents matches Some(t) ==> match r {
                Ok(c) => toml_work_path(t@) == Some(c.work_path@),
                Err(e) => toml_work_path(t@) is None && e == ConfigError::Invalid,
            },
            contents is None ==> match r {
                Ok(c) => true,
                Err(e) => e == ConfigError::NoCacheDirectory,
            },
    {
        match contents {
            Some(t) => Config::from_file(t.as_str()),
            None => match os_cache_dir() {
                Some(d) => Ok(Config { work_path: d }),
                None => Err(ConfigError::NoCacheDirectory),
            },
        }
    }
}

} // verus!
