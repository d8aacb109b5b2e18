use vstd::prelude::*;

verus! {

/// Where the service listens.
pub struct Config {
    pub host: String,
    pub port: u64,
}

/// The file the configuration is read from.
pub const CONFIG_FILE: &'static str = "./config.toml";

} // verus!
