//! Client mode: receives the stream from a server and plays it.
use vstd::prelude::*;
pub mod audio;
pub mod cli_commands;
pub mod network;

use network::{ClientSession, run_client};

verus! {

/// Starts client mode for the server at `host:port`.
pub fn run(host: String, port: u16) -> (session: ClientSession)
    ensures
        session.host@ == host@,
        session.port == port,
        session.phase == network::ClientPhase::Connecting,
        session.connections == 0,
{
    run_client(host, port)
}

} // verus!
