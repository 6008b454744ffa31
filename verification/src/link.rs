//! Getting a connection, and getting it back after it was lost.
//!
//! The socket and the clock are not touched here. The functions say what to do next and take
//! note of how it went.

use crate::ipv4::SocketAddress;
use vstd::prelude::*;

verus! {

/// A change of the connection's state that subscribers hear of.
#[derive(Debug, Clone, Copy, PartialEq, Eq, Structural)]
pub enum SocketStateChange {
    Disconnected,
    Connecting,
    Connected,
}

/// How far a single attempt to connect has come.
#[derive(Debug, Clone, Copy, PartialEq, Eq, Structural)]
pub enum ConnectStage {
    /// Subscribers are being told that an attempt begins.
    Announcing,
    /// The peer is being dialled.
    Dialing,
    /// Subscribers are being told how the attempt ended.
    Reporting { connected: bool },
}

/// A single attempt to connect.
#[derive(Debug, Clone, Copy, PartialEq, Eq, Structural)]
pub struct ConnectAttempt {
    /// The peer to connect to.
    pub addr: SocketAddress,
    /// How far the attempt has come.
    pub stage: ConnectStage,
}

/// What an attempt to connect needs next.
#[derive(Debug, Clone, Copy, PartialEq, Eq, Structural)]
pub enum ConnectAction {
    /// Tell the subscribers.
    Notify(SocketStateChange),
    /// Dial the peer.
    Connect { addr: SocketAddress },
}

/// What happened to an attempt to connect.
#[derive(Debug, Clone, Copy, PartialEq, Eq, Structural)]
pub enum ConnectEvent {
    /// The subscribers have been told, or there is nobody left to tell.
    Notified,
    /// The peer has been dialled.
    Dialed { connected: bool },
}

/// Where an attempt to connect stands after an event.
#[derive(Debug, Clone, Copy, PartialEq, Eq, Structural)]
pub enum ConnectStep {
    /// It goes on.
    Continue(ConnectAttempt),
    /// It is over.
    Finished { connected: bool },
    /// The event does not belong to what the attempt was waiting for.
    Unexpected,
}

impl ConnectAttempt {
    /// An attempt that has just begun.
    pub open spec fn begun(addr: SocketAddress) -> ConnectAttempt {
        ConnectAttempt { addr, stage: ConnectStage::Announcing }
    }

    /// What is to be done at this point: the attempt is announced as
    /// [`SocketStateChange::Connecting`], then the peer is dialled, then success is reported as
    /// [`SocketStateChange::Connected`] and failure as [`SocketStateChange::Disconnected`].
    pub open spec fn pending(self) -> ConnectAction {
        match self.stage {
            ConnectStage::Announcing => ConnectAction::Notify(SocketStateChange::Connecting),
            ConnectStage::Dialing => ConnectAction::Connect { addr: self.addr },
            ConnectStage::Reporting { connected: true } => ConnectAction::Notify(
                SocketStateChange::Connected,
            ),
            ConnectStage::Reporting { connected: false } => ConnectAction::Notify(
                SocketStateChange::Disconnected,
            ),
        }
    }

    /// What follows an event.
    pub open spec fn after(self, event: ConnectEvent) -> ConnectStep {
        match (self.stage, event) {
            (ConnectStage::Announcing, ConnectEvent::Notified) => ConnectStep::Continue(
                ConnectAttempt { stage: ConnectStage::Dialing, ..self },
            ),
            (ConnectStage::Dialing, ConnectEvent::Dialed { connected }) => ConnectStep::Continue(
                ConnectAttempt { stage: ConnectStage::Reporting { connected }, ..self },
            ),
            (ConnectStage::Reporting { connected }, ConnectEvent::Notified) => {
                ConnectStep::Finished { connected }
            },
            _ => ConnectStep::Unexpected,
        }
    }

    /// Begins an attempt to connect to `addr`.
    pub fn connect_with_retry(addr: SocketAddress) -> (attempt: ConnectAttempt)
        ensures
            attempt == ConnectAttempt::begun(addr),
    {
        ConnectAttempt { addr, stage: ConnectStage::Announcing }
    }

    /// What is to be done at this point.
    pub fn action(self) -> (action: ConnectAction)
        ensures
            action == self.pending(),
    {
        match self.stage {
            ConnectStage::Announcing => ConnectAction::Notify(SocketStateChange::Connecting),
            ConnectStage::Dialing => ConnectAction::Connect { addr: self.addr },
            ConnectStage::Reporting { connected } => if connected {
                ConnectAction::Notify(SocketStateChange::Connected)
            } else {
                ConnectAction::Notify(SocketStateChange::Disconnected)
            },
        }
    }

    /// Takes note of an event.
    pub fn step(self, event: ConnectEvent) -> (step: ConnectStep)
        ensures
            step == self.after(event),
    {
        match (self.stage, event) {
            (ConnectStage::Announcing, ConnectEvent::Notified) => ConnectStep::Continue(
                ConnectAttempt { addr: self.addr, stage: ConnectStage::Dialing },
            ),
            (ConnectStage::Dialing, ConnectEvent::Dialed { connected }) => ConnectStep::Continue(
                ConnectAttempt { addr: self.addr, stage: ConnectStage::Reporting { connected } },
            ),
            (ConnectStage::Reporting { connected }, ConnectEvent::Notified) => {
                ConnectStep::Finished { connected }
            },
            _ => ConnectStep::Unexpected,
        }
    }
}

/// How far the search for a connection has come.
#[derive(Debug, Clone, Copy, PartialEq, Eq, Structural)]
pub enum LinkStage {
    /// An attempt to connect is under way.
    Attempting(ConnectAttempt),
    /// The pause before the next attempt is running.
    Waiting { seconds: u64 },
}

/// The search for a connection: one attempt, or attempts with pauses between them until one
/// succeeds.
#[derive(Debug, Clone, Copy, PartialEq, Eq, Structural)]
pub struct LinkLoop {
    /// The peer to connect to.
    pub addr: SocketAddress,
    /// The pause between attempts in seconds; without one there is a single attempt.
    pub reconnect_timeout: Option<u64>,
    /// How far the search has come.
    pub stage: LinkStage,
}

/// What the search for a connection needs next.
#[derive(Debug, Clone, Copy, PartialEq, Eq, Structural)]
pub enum LinkAction {
    /// Go on with the attempt to connect.
    Attempt(ConnectAction),
    /// Let the pause pass.
    Sleep { seconds: u64 },
}

/// What happened to the search for a connection.
#[derive(Debug, Clone, Copy, PartialEq, Eq, Structural)]
pub enum LinkEvent {
    /// Something happened to the attempt under way.
    Attempt(ConnectEvent),
    /// The pause is over.
    Slept,
    /// The client wants its worker to stop.
    Shutdown,
}

/// Where the search for a connection stands after an event.
#[derive(Debug, Clone, Copy, PartialEq, Eq, Structural)]
pub enum LinkStep {
    /// It goes on.
    Continue(LinkLoop),
    /// There is a connection.
    Up,
    /// There is none, and there will be none.
    Down,
    /// The event does not belong to what the search was waiting for.
    Unexpected,
}

impl LinkLoop {
    /// The search at the start of an attempt.
    pub open spec fn attempting(addr: SocketAddress, reconnect_timeout: Option<u64>) -> LinkLoop {
        LinkLoop {
            addr,
            reconnect_timeout,
            stage: LinkStage::Attempting(ConnectAttempt::begun(addr)),
        }
    }

    /// The search at the start of a pause of `seconds`.
    pub open spec fn waiting(addr: SocketAddress, seconds: u64) -> LinkLoop {
        LinkLoop { addr, reconnect_timeout: Some(seconds), stage: LinkStage::Waiting { seconds } }
    }

    /// Every attempt is made to the same peer. A pause lasts as long as was asked for, and there
    /// is none unless one was asked for.
    pub open spec fn wf(self) -> bool {
        match self.stage {
            LinkStage::Attempting(attempt) => attempt.addr == self.addr,
            LinkStage::Waiting { seconds } => self.reconnect_timeout == Some(seconds),
        }
    }

    /// What is to be done at this point.
    pub open spec fn pending(self) -> LinkAction {
        match self.stage {
            LinkStage::Attempting(attempt) => LinkAction::Attempt(attempt.pending()),
            LinkStage::Waiting { seconds } => LinkAction::Sleep { seconds },
        }
    }

    /// What follows an event. A wish to stop ends the search at any point. A successful attempt
    /// ends it too; a failed one leads to a pause, and without a pause it is the end.
    pub open spec fn after(self, event: LinkEvent) -> LinkStep {
        match (event, self.stage) {
            (LinkEvent::Shutdown, _) => LinkStep::Down,
            (LinkEvent::Slept, LinkStage::Waiting { .. }) => LinkStep::Continue(
                LinkLoop::attempting(self.addr, self.reconnect_timeout),
            ),
            (LinkEvent::Attempt(event), LinkStage::Attempting(attempt)) => {
                match attempt.after(event) {
                    ConnectStep::Continue(attempt) => LinkStep::Continue(
                        LinkLoop { stage: LinkStage::Attempting(attempt), ..self },
                    ),
                    ConnectStep::Finished { connected: true } => LinkStep::Up,
                    ConnectStep::Finished { connected: false } => match self.reconnect_timeout {
                        Some(seconds) => LinkStep::Continue(LinkLoop::waiting(self.addr, seconds)),
                        None => LinkStep::Down,
                    },
                    ConnectStep::Unexpected => LinkStep::Unexpected,
                }
            },
            _ => LinkStep::Unexpected,
        }
    }

    /// Begins the search of a worker that has just started: an attempt comes first, and pauses
    /// of `reconnect_timeout` seconds lie between attempts.
    pub fn initial_connect(addr: SocketAddress, reconnect_timeout: Option<u64>) -> (link: LinkLoop)
        ensures
            link == LinkLoop::attempting(addr, reconnect_timeout),
    {
        LinkLoop {
            addr,
            reconnect_timeout,
            stage: LinkStage::Attempting(ConnectAttempt::connect_with_retry(addr)),
        }
    }

    /// Begins the search of a worker that has lost its connection: a pause of `timeout` seconds
    /// comes first.
    pub fn reconnect_loop(addr: SocketAddress, timeout: u64) -> (link: LinkLoop)
        ensures
            link == LinkLoop::waiting(addr, timeout),
    {
        LinkLoop {
            addr,
            reconnect_timeout: Some(timeout),
            stage: LinkStage::Waiting { seconds: timeout },
        }
    }

    /// What is to be done at this point.
    pub fn action(self) -> (action: LinkAction)
        ensures
            action == self.pending(),
    {
        match self.stage {
            LinkStage::Attempting(attempt) => LinkAction::Attempt(attempt.action()),
            LinkStage::Waiting { seconds } => LinkAction::Sleep { seconds },
        }
    }

    /// Takes note of an event.
    pub fn step(self, event: LinkEvent) -> (step: LinkStep)
        ensures
            step == self.after(event),
    {
        match (event, self.stage) {
            (LinkEvent::Shutdown, _) => LinkStep::Down,
            (LinkEvent::Slept, LinkStage::Waiting { .. }) => LinkStep::Continue(
                LinkLoop::initial_connect(self.addr, self.reconnect_timeout),
            ),
            (LinkEvent::Attempt(event), LinkStage::Attempting(attempt)) => {
                match attempt.step(event) {
                    ConnectStep::Continue(attempt) => LinkStep::Continue(
                        LinkLoop {
                            addr: self.addr,
                            reconnect_timeout: self.reconnect_timeout,
                            stage: LinkStage::Attempting(attempt),
                        },
                    ),
                    ConnectStep::Finished { connected } => if connected {
                        LinkStep::Up
                    } else {
                        match self.reconnect_timeout {
                            Some(seconds) => LinkStep::Continue(
                                LinkLoop::reconnect_loop(self.addr, seconds),
                            ),
                            None => LinkStep::Down,
                        }
                    },
                    ConnectStep::Unexpected => LinkStep::Unexpected,
                }
            },
            _ => LinkStep::Unexpected,
        }
    }
}

} // verus!
