//! The decisions of the client's connection handling: the main loop that
//! reacts to connection events, the retry schedule of connection attempts,
//! and the network read loop.
use vstd::prelude::*;

verus! {

/// Events that the connection side reports to the client's main loop.
#[derive(Debug)]
pub enum ConnectionEvent<S> {
    /// A connection to the server was established.
    Connected(S),
    /// The connection to the server was lost.
    Disconnected,
    /// The client should shut down.
    Shutdown,
}

/// The result of waiting for a value from a channel.
#[derive(Debug)]
pub enum Received<T> {
    /// A value arrived.
    Value(T),
    /// Nothing arrived before the wait ended.
    Timeout,
    /// Every sender is gone; nothing will arrive any more.
    Closed,
}

/// Where the client is in its life cycle.
#[derive(Debug, Clone, Copy, PartialEq, Eq, Structural)]
pub enum ClientPhase {
    /// Trying to reach the server.
    Connecting,
    /// Connected and playing the stream.
    Playing,
    /// Shut down; nothing happens any more.
    Stopped,
}

/// What the client's main loop does next.
#[derive(Debug)]
pub enum ClientAction<S> {
    /// Start playback for the new connection, with a fresh audio channel for
    /// the connection after it.
    StartPlayback(S),
    /// Stop playback and start connecting again.
    Reconnect,
    /// Leave the main loop and clean up.
    Stop,
    /// Nothing happened; check again.
    Wait,
}

/// The client's state: the server it connects to, its phase, and how many
/// connections were established so far.
pub struct ClientSession {
    pub host: String,
    pub port: u16,
    pub phase: ClientPhase,
    pub connections: u64,
}

/// Starts a client session for the server at `host:port`; the session begins
/// by connecting.
pub fn run_client(host: String, port: u16) -> (session: ClientSession)
    ensures
        session.host@ == host@,
        session.port == port,
        session.phase == ClientPhase::Connecting,
        session.connections == 0,
{
    ClientSession { host, port, phase: ClientPhase::Connecting, connections: 0 }
}

impl ClientSession {
    /// Reacts to what the main loop's wait produced. `running` is false once
    /// shutdown was requested.
    pub fn on_event<S>(&mut self, running: bool, received: Received<ConnectionEvent<S>>) -> (action: ClientAction<S>)
        ensures
            final(self).host@ == old(self).host@,
            final(self).port == old(self).port,
            old(self).phase == ClientPhase::Stopped || !running ==> action is Stop
                && final(self).phase == ClientPhase::Stopped && final(self).connections == old(self).connections,
            old(self).phase != ClientPhase::Stopped && running ==> match received {
                Received::Value(ConnectionEvent::Connected(s)) => (action matches ClientAction::StartPlayback(t) && t == s)
                    && final(self).phase == ClientPhase::Playing
                    && final(self).connections == if old(self).connections < u64::MAX {
                        (old(self).connections + 1) as u64
                    } else {
                        old(self).connections
                    },
                Received::Value(ConnectionEvent::Disconnected) => action is Reconnect
                    && final(self).phase == ClientPhase::Connecting
                    && final(self).connections == old(self).connections,
                Received::Value(ConnectionEvent::Shutdown) => action is Stop
                    && final(self).phase == ClientPhase::Stopped
                    && final(self).connections == old(self).connections,
                Received::Timeout => action is Wait
                    && final(self).phase == old(self).phase
                    && final(self).connections == old(self).connections,
                Received::Closed => action is Stop
                    && final(self).phase == ClientPhase::Stopped
                    && final(self).connections == old(self).connections,
            },
    {
        if !running || self.phase == ClientPhase::Stopped {
            self.phase = ClientPhase::Stopped;
            return ClientAction::Stop;
        }
        match received {
            Received::Value(ConnectionEvent::Connected(stream)) => {
                self.phase = ClientPhase::Playing;
                self.connections = self.connections.saturating_add(1);
                ClientAction::StartPlayback(stream)
            },
            Received::Value(ConnectionEvent::Disconnected) => {
                self.phase = ClientPhase::Connecting;
                ClientAction::Reconnect
            },
            Received::Value(ConnectionEvent::Shutdown) => {
                self.phase = ClientPhase::Stopped;
                ClientAction::Stop
            },
            Received::Timeout => ClientAction::Wait,
            Received::Closed => {
                self.phase = ClientPhase::Stopped;
                ClientAction::Stop
            },
        }
    }
}

/// Number of pauses between two connection attempts.
pub const RETRY_WAIT_TICKS: u32 = 50;

/// Length of one pause between connection attempts, in milliseconds; the
/// shutdown flag is checked after each pause.
pub const RETRY_TICK_MS: u64 = 100;

/// What to do after a connection attempt failed.
#[derive(Debug, Clone, Copy, PartialEq, Eq, Structural)]
pub enum RetryDecision {
    /// Shutdown was requested: give up.
    GiveUp,
    /// Wait `RETRY_WAIT_TICKS` pauses of `RETRY_TICK_MS`, then try again.
    RetryAfterWait,
}

/// Counts the connection attempts to the server.
pub struct RetrySchedule {
    /// The number of the next attempt, starting at 1.
    pub attempt: u64,
}

impl RetrySchedule {
    /// A schedule whose next attempt is the first.
    pub fn new() -> (schedule: RetrySchedule)
        ensures
            schedule.attempt == 1,
    {
        RetrySchedule { attempt: 1 }
    }

    /// Decides what follows a failed attempt; when retrying, the attempt
    /// count moves on by one.
    pub fn on_failure(&mut self, running: bool) -> (decision: RetryDecision)
        ensures
            !running ==> decision == RetryDecision::GiveUp && final(self).attempt == old(self).attempt,
            running ==> decision == RetryDecision::RetryAfterWait && final(self).attempt == if old(self).attempt
                < u64::MAX {
                (old(self).attempt + 1) as u64
            } else {
                old(self).attempt
            },
    {
        if !running {
            return RetryDecision::GiveUp;
        }
        self.attempt = self.attempt.saturating_add(1);
        RetryDecision::RetryAfterWait
    }
}

/// What one read from the server's stream produced.
#[derive(Debug, Clone, Copy, PartialEq, Eq, Structural)]
pub enum ReadOutcome {
    /// Some bytes arrived.
    Data,
    /// The server closed the connection.
    EndOfStream,
    /// No bytes are available right now.
    WouldBlock,
    /// The read failed.
    Failed,
}

/// What the network read loop does after a read.
#[derive(Debug, Clone, Copy, PartialEq, Eq, Structural)]
pub enum ReadStep {
    /// Append the bytes and decode every complete message.
    Decode,
    /// Pause briefly, then read again.
    Pause,
    /// Report the lost connection, then leave the loop.
    ReportDisconnect,
    /// Leave the loop quietly.
    Stop,
}

/// Decides the read loop's next step; `running` is false once shutdown was
/// requested, in which case a failed read is not reported.
pub fn read_step(running: bool, outcome: ReadOutcome) -> (step: ReadStep)
    ensures
        step == match outcome {
            ReadOutcome::Data => ReadStep::Decode,
            ReadOutcome::EndOfStream => ReadStep::ReportDisconnect,
            ReadOutcome::WouldBlock => ReadStep::Pause,
            ReadOutcome::Failed => if running { ReadStep::ReportDisconnect } else { ReadStep::Stop },
        },
{
    match outcome {
        ReadOutcome::Data => ReadStep::Decode,
        ReadOutcome::EndOfStream => ReadStep::ReportDisconnect,
        ReadOutcome::WouldBlock => ReadStep::Pause,
        ReadOutcome::Failed => if running {
            ReadStep::ReportDisconnect
        } else {
            ReadStep::Stop
        },
    }
}

} // verus!
