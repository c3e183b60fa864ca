//! The configuration of the helper.

use vstd::prelude::*;

verus! {

/// The name of the configuration file, which lies beside the helper's
/// executable.
pub const CONFIG_NAME: &'static str = "config.json";

/// The port on which the helper listens when the configuration names
/// none.
pub const DEFAULT_PORT: u16 = 41012;

/// The configuration, read once at startup and never changed.
#[derive(Clone, Copy, Debug, PartialEq, Eq)]
pub struct Config {
    /// The port on which to listen.
    pub port: Option<u16>,
}

impl Default for Config {
    /// The configuration that names no port.
    fn default() -> (config: Config)
        ensures
            config.port is None,
    {
        Config { port: None }
    }
}

impl Config {
    /// The port that this configuration asks for.
    pub open spec fn spec_port(self) -> u16 {
        match self.port {
            Some(port) => port,
            None => DEFAULT_PORT,
        }
    }

    /// The port on which to listen: the configured one, or
    /// [`DEFAULT_PORT`].
    pub fn port_or_default(&self) -> (port: u16)
        ensures
            port == self.spec_port(),
    {
        match self.port {
            Some(port) => port,
            None => DEFAULT_PORT,
        }
    }
}

/// The port on which to listen, given what loading the configuration
/// file brought: `None` stands for a file that is missing or cannot be
/// read as a configuration, and leads to [`DEFAULT_PORT`] as a file
/// without a port does.
pub fn effective_port(loaded: Option<Config>) -> (port: u16)
    ensures
        port == match loaded {
            Some(config) => config.spec_port(),
            None => DEFAULT_PORT,
        },
{
    match loaded {
        Some(config) => config.port_or_default(),
        None => DEFAULT_PORT,
    }
}

} // verus!
