//! Server mode: captures audio and broadcasts it to the connected clients.
use vstd::prelude::*;
pub mod audio;
pub mod cli_commands;
pub mod network;

use network::{ServerSession, run_server};

verus! {

/// Starts server mode on `port`. The capture device is always the default
/// input device, so `device_id` is not consulted.
pub fn run<C>(port: u16, device_id: String) -> (session: ServerSession<C>)
    ensures
        session.port == port,
        session.clients@.len() == 0,
{
    run_server(port)
}

} // verus!
