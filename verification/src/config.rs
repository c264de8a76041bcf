//! One run's settings, and the choice of configuration dialect by file
//! extension. Reading and deserializing the file itself is the caller's
//! I/O; it hands the parsed values over as plain data.

use vstd::prelude::*;
use vstd::string::*;

use crate::types::Timespan;

verus! {

/// The symbols a configuration file lists.
#[derive(Clone, PartialEq, Eq, Debug)]
pub struct Tickers {
    /// The symbols to download data for.
    pub tickers: Vec<String>,
}

/// Everything one run needs: symbols, bucket width, output root, range and
/// page size.
#[derive(Clone, PartialEq, Eq, Debug)]
pub struct Config {
    /// The symbols to download data for.
    pub tickers: Vec<String>,
    /// The bucket width for each candle.
    pub timespan: Timespan,
    /// The root folder of the output; one file per symbol under it.
    pub output_dir: String,
    /// Start of the range, Unix milliseconds.
    pub from_millis: i64,
    /// End of the range, Unix milliseconds.
    pub to_millis: i64,
    /// How many records to ask for in one page.
    pub limit: u32,
}

/// The serialization dialect of a configuration file.
#[derive(Clone, Copy, PartialEq, Eq, Structural, Debug)]
pub enum ConfigFormat {
    Yaml,
    Toml,
    Json,
}

/// Which dialect a file extension calls for; none for an unknown one.
pub open spec fn format_model(ext: Seq<char>) -> Option<ConfigFormat> {
    if ext == "yaml"@ || ext == "yml"@ {
        Some(ConfigFormat::Yaml)
    } else if ext == "toml"@ {
        Some(ConfigFormat::Toml)
    } else if ext == "json"@ {
        Some(ConfigFormat::Json)
    } else {
        None
    }
}

/// Decides how a configuration file is to be parsed, from its extension.
pub fn format_for_extension(ext: &str) -> (r: Option<ConfigFormat>)
    ensures
        r == format_model(ext@),
{
    let o = ext.to_owned();
    if o == String::from_str("yaml") || o == String::from_str("yml") {
        Some(ConfigFormat::Yaml)
    } else if o == String::from_str("toml") {
        Some(ConfigFormat::Toml)
    } else if o == String::from_str("json") {
        Some(ConfigFormat::Json)
    } else {
        None
    }
}

} // verus!
