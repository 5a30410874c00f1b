//! Command-line arguments of the stand-alone server.
use vstd::prelude::*;

verus! {

/// Arguments of the stand-alone server.
#[derive(Debug, Clone)]
pub struct Cli {
    /// Port to listen on.
    pub port: u16,
    /// Audio device ID, if one was named.
    pub device_id: Option<String>,
}

impl Default for Cli {
    /// Port 8080, no device named.
    fn default() -> (cli: Cli)
        ensures
            cli.port == 8080,
            cli.device_id is None,
    {
        Cli { port: 8080, device_id: None }
    }
}

} // verus!
