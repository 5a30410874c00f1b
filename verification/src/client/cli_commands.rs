//! Command-line arguments of the stand-alone client.
use vstd::prelude::*;

verus! {

/// Arguments of the stand-alone client.
#[derive(Debug, Clone)]
pub struct Cli {
    /// Host of the server.
    pub host: String,
    /// Port on the server.
    pub port: u16,
}

impl Default for Cli {
    /// Host `localhost`, port 8080.
    fn default() -> (cli: Cli)
        ensures
            cli.host@ == "localhost"@,
            cli.port == 8080,
    {
        Cli { host: "localhost".to_owned(), port: 8080 }
    }
}

} // verus!
