//! Command-line arguments of the unified tool, and which mode they select.
use vstd::prelude::*;
use crate::DEFAULT_PORT;

verus! {

/// Arguments of the server mode.
#[derive(Debug, Clone)]
pub struct ServerArgs {
    /// Port to bind the server to.
    pub port: u16,
    /// Audio device ID.
    pub device_id: String,
}

/// Arguments of the client mode.
#[derive(Debug, Clone)]
pub struct ClientArgs {
    /// Host of the server to connect to.
    pub host: String,
    /// Port on the server to connect to.
    pub port: u16,
}

/// The mode chosen by a subcommand.
#[derive(Debug, Clone)]
pub enum Mode {
    /// Run server mode (the default).
    Server(ServerArgs),
    /// Run client mode.
    Client(ClientArgs),
}

/// All arguments: an optional subcommand, and the server arguments that
/// apply when no subcommand is given.
#[derive(Debug, Clone)]
pub struct Args {
    pub mode: Option<Mode>,
    pub server: ServerArgs,
}

impl Default for ServerArgs {
    /// Port `DEFAULT_PORT`, empty device ID.
    fn default() -> (args: ServerArgs)
        ensures
            args.port == DEFAULT_PORT,
            args.device_id@ == ""@,
    {
        ServerArgs { port: DEFAULT_PORT, device_id: "".to_owned() }
    }
}

impl Default for ClientArgs {
    /// Host `localhost`, port `DEFAULT_PORT`.
    fn default() -> (args: ClientArgs)
        ensures
            args.host@ == "localhost"@,
            args.port == DEFAULT_PORT,
    {
        ClientArgs { host: "localhost".to_owned(), port: DEFAULT_PORT }
    }
}

impl Args {
    /// The mode to run: the subcommand's, or server mode with the top-level
    /// server arguments when no subcommand was given.
    pub fn selected_mode(self) -> (mode: Mode)
        ensures
            match self.mode {
                Some(m) => mode == m,
                None => mode == Mode::Server(self.server),
            },
    {
        match self.mode {
            Some(m) => m,
            None => Mode::Server(self.server),
        }
    }
}

} // verus!
