//! Settings of the server program.

use vstd::prelude::*;
use vstd::string::*;
use crate::text::optional_text;

verus! {

/// A path in the file system, as std holds it.
#[verifier::external_type_specification]
#[verifier::external_body]
pub struct ExPathBuf(std::path::PathBuf);

/// What the command line gives.
#[derive(Debug, Clone)]
pub struct Cli {
    /// The configuration file to read.
    pub config: Option<std::path::PathBuf>,
    /// Whether only the version is asked for.
    pub version: bool,
}

/// The settings of the server.
#[derive(Debug, Clone)]
pub struct Config {
    /// The address on which the server listens.
    pub sse_server_addr: String,
}

/// Why no settings could be made.
#[derive(Debug, Clone, Copy, PartialEq, Eq, Structural)]
pub enum ConfigError {
    /// No source gives the address of the server.
    MissingAddress,
}

/// The address that the sources give: that of the environment where it
/// gives one, else that of the configuration file.
pub open spec fn chosen_address(file: Option<Seq<char>>, environment: Option<Seq<char>>) -> Option<
    Seq<char>,
> {
    match environment {
        Some(a) => Some(a),
        None => file,
    }
}

impl Config {
    /// Makes the settings from what the configuration file and the
    /// environment say of the server's address. The environment overrides
    /// the file; where neither names an address there are no settings.
    pub fn new(file: Option<String>, environment: Option<String>) -> (r: Result<Config, ConfigError>)
        ensures
            match chosen_address(optional_text(file), optional_text(environment)) {
                Some(a) => r matches Ok(c) && c.sse_server_addr@ == a,
                None => r == Err::<Config, ConfigError>(ConfigError::MissingAddress),
            },
    {
        match environment {
            Some(a) => Ok(Config { sse_server_addr: a }),
            None => match file {
                Some(a) => Ok(Config { sse_server_addr: a }),
                None => Err(ConfigError::MissingAddress),
            },
        }
    }
}

impl ConfigError {
    /// The error in words.
    pub fn message(&self) -> (r: String)
        ensures
            r@ == "missing field `sse_server_addr`"@,
    {
        String::from_str("missing field `sse_server_addr`")
    }
}

} // verus!
