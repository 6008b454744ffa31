//! The worker that owns the connection.
//!
//! A [`Worker`] decides what the task behind a client does next. The task performs the action it
//! is given and hands back what happened; sockets, clocks and channels stay with the task.

use crate::command::{
    execute_command, result_view, AttemptView, CommandResult, CommandResultView, CommandStep,
    CommandStepView, PendingRead, PendingWrite, ReadOutcome, ReadOutcomeView, WriteOutcome,
    WriteOutcomeView, RESPONSE_CAPACITY, WRITE_TIMEOUT_MILLIS,
};
use crate::error::{ErrorView, ModbusTCPError};
use crate::ipv4::SocketAddress;
use crate::link::{LinkAction, LinkEvent, LinkLoop, LinkStep, SocketStateChange};
use vstd::prelude::*;

verus! {

/// The pause between two checks of an idle connection, in milliseconds.
pub const CHECK_INTERVAL_MILLIS: u64 = 5000;

/// How long a check of the connection may take, in milliseconds.
pub const CHECK_TIMEOUT_MILLIS: u64 = 100;

/// Where the answer to a command goes.
pub type ReplySender = tokio::sync::oneshot::Sender<CommandResult>;

/// A request on its way to the worker.
pub struct ModbusCommand {
    /// The bytes to send.
    pub packet: Vec<u8>,
    /// Where the answer goes.
    pub reply: ReplySender,
}

/// [`ModbusCommand`] with the packet replaced by its bytes.
pub struct CommandView {
    pub packet: Seq<u8>,
    pub reply: ReplySender,
}

impl View for ModbusCommand {
    type V = CommandView;

    open spec fn view(&self) -> CommandView {
        CommandView { packet: self.packet@, reply: self.reply }
    }
}

/// What asking the socket for its readiness gave.
#[derive(Debug, Clone, Copy, PartialEq, Eq, Structural)]
pub enum SocketProbe {
    /// No answer in time.
    TimedOut,
    /// The socket reported an error.
    Failed,
    /// An answer, which says whether the peer has closed its side.
    Ready { read_closed: bool },
}

impl SocketProbe {
    /// A connection counts as dead only if the socket says that the peer has closed its side.
    pub open spec fn alive(self) -> bool {
        self != SocketProbe::Ready { read_closed: true }
    }
}

/// Whether the connection counts as alive.
pub fn check_socket_alive(probe: SocketProbe) -> (alive: bool)
    ensures
        alive == probe.alive(),
        alive <==> probe != (SocketProbe::Ready { read_closed: true }),
{
    match probe {
        SocketProbe::Ready { read_closed } => !read_closed,
        SocketProbe::TimedOut | SocketProbe::Failed => true,
    }
}

/// What an idle worker woke up for.
pub enum Wakeup {
    /// A command arrived.
    Command(ModbusCommand),
    /// It is time to check the connection.
    Tick,
    /// The client wants the worker to stop, or is gone.
    Shutdown,
}

/// What happened to what the worker asked for.
pub enum WorkerEvent {
    /// Something happened to the search for a connection.
    Link(LinkEvent),
    /// The idle worker woke up.
    Woke(Wakeup),
    /// The write of the packet ended.
    Written(WriteOutcome),
    /// The read of the response ended.
    Received(ReadOutcome),
    /// The connection was checked.
    Probed(SocketProbe),
    /// The subscribers were told or the answer was handed over, or nobody was left to take it.
    Delivered,
}

/// What the worker asks for.
pub enum WorkerAction {
    /// Go on with the search for a connection, unless the client wants the worker to stop first.
    Link(LinkAction),
    /// Wait for a command, for the next check or for the client's wish to stop. Checks are due
    /// every `check_millis`, counted from the start of the worker.
    Select { check_millis: u64 },
    /// Write the packet to the socket.
    Write { packet: Vec<u8>, timeout_millis: u64 },
    /// Read a response of up to `capacity` bytes from the socket.
    Read { capacity: usize, timeout_millis: u64 },
    /// Hand over the answer to a command.
    Reply { reply: ReplySender, result: CommandResult },
    /// Check the connection.
    Probe { timeout_millis: u64 },
    /// Tell the subscribers.
    Notify(SocketStateChange),
    /// End the task.
    Stop,
    /// Nothing: the event does not belong to what the worker was waiting for.
    Unexpected(WorkerEvent),
}

/// [`WorkerEvent`] with everything replaced by what it holds.
pub enum EventView {
    Link(LinkEvent),
    Command(CommandView),
    Tick,
    Shutdown,
    Written(WriteOutcomeView),
    Received(ReadOutcomeView),
    Probed(SocketProbe),
    Delivered,
}

/// [`WorkerAction`] with everything replaced by what it holds.
pub enum ActionView {
    Link(LinkAction),
    Select { check_millis: u64 },
    Write { packet: Seq<u8>, timeout_millis: u64 },
    Read { capacity: usize, timeout_millis: u64 },
    Reply { reply: ReplySender, result: CommandResultView },
    Probe { timeout_millis: u64 },
    Notify(SocketStateChange),
    Stop,
    Unexpected(EventView),
}

impl View for WorkerEvent {
    type V = EventView;

    open spec fn view(&self) -> EventView {
        match self {
            WorkerEvent::Link(event) => EventView::Link(*event),
            WorkerEvent::Woke(Wakeup::Command(command)) => EventView::Command(command@),
            WorkerEvent::Woke(Wakeup::Tick) => EventView::Tick,
            WorkerEvent::Woke(Wakeup::Shutdown) => EventView::Shutdown,
            WorkerEvent::Written(outcome) => EventView::Written(outcome@),
            WorkerEvent::Received(outcome) => EventView::Received(outcome@),
            WorkerEvent::Probed(probe) => EventView::Probed(*probe),
            WorkerEvent::Delivered => EventView::Delivered,
        }
    }
}

impl View for WorkerAction {
    type V = ActionView;

    open spec fn view(&self) -> ActionView {
        match self {
            WorkerAction::Link(action) => ActionView::Link(*action),
            WorkerAction::Select { check_millis } => ActionView::Select {
                check_millis: *check_millis,
            },
            WorkerAction::Write { packet, timeout_millis } => ActionView::Write {
                packet: packet@,
                timeout_millis: *timeout_millis,
            },
            WorkerAction::Read { capacity, timeout_millis } => ActionView::Read {
                capacity: *capacity,
                timeout_millis: *timeout_millis,
            },
            WorkerAction::Reply { reply, result } => ActionView::Reply {
                reply: *reply,
                result: result_view(*result),
            },
            WorkerAction::Probe { timeout_millis } => ActionView::Probe {
                timeout_millis: *timeout_millis,
            },
            WorkerAction::Notify(change) => ActionView::Notify(*change),
            WorkerAction::Stop => ActionView::Stop,
            WorkerAction::Unexpected(event) => ActionView::Unexpected(event@),
        }
    }
}

/// What the worker is busy with.
enum Phase {
    Linking(LinkLoop),
    Idle,
    Writing(PendingWrite, ReplySender),
    Reading(PendingRead, ReplySender),
    Replying,
    Probing,
    Losing,
    Stopped,
}

/// What the worker is busy with.
pub enum PhaseView {
    /// It looks for a connection.
    Linking(LinkLoop),
    /// It waits for something to do.
    Idle,
    /// It writes the packet of a command.
    Writing(AttemptView, ReplySender),
    /// It reads the response to a command.
    Reading(AttemptView, ReplySender),
    /// It hands over the answer to a command.
    Replying,
    /// It checks the connection.
    Probing,
    /// It tells the subscribers that the connection is gone.
    Losing,
    /// Its task is over.
    Stopped,
}

impl Phase {
    spec fn model(self) -> PhaseView {
        match self {
            Phase::Linking(link) => PhaseView::Linking(link),
            Phase::Idle => PhaseView::Idle,
            Phase::Writing(pending, reply) => PhaseView::Writing(pending@, reply),
            Phase::Reading(pending, reply) => PhaseView::Reading(pending@, reply),
            Phase::Replying => PhaseView::Replying,
            Phase::Probing => PhaseView::Probing,
            Phase::Losing => PhaseView::Losing,
            Phase::Stopped => PhaseView::Stopped,
        }
    }
}

/// What a worker is told when it starts.
#[derive(Debug, Clone, Copy, PartialEq, Eq, Structural)]
pub struct WorkerConfig {
    /// The pause before a lost connection is sought again, in seconds; without one it is not.
    pub reconnect_timeout: Option<u64>,
    /// How often a failed try of a command is repeated.
    pub retry_count: usize,
    /// How long a try waits for the response, in milliseconds.
    pub retry_interval: u64,
}

/// The worker that owns the connection.
pub struct Worker {
    addr: SocketAddress,
    config: WorkerConfig,
    stream: bool,
    should_reconnect: bool,
    phase: Phase,
}

/// A worker: its peer, its configuration, whether it holds a stream, whether it is to look for a
/// new one, and what it is busy with.
pub struct WorkerView {
    pub addr: SocketAddress,
    pub config: WorkerConfig,
    pub stream: bool,
    pub should_reconnect: bool,
    pub phase: PhaseView,
}

impl View for Worker {
    type V = WorkerView;

    closed spec fn view(&self) -> WorkerView {
        WorkerView {
            addr: self.addr,
            config: self.config,
            stream: self.stream,
            should_reconnect: self.should_reconnect,
            phase: self.phase.model(),
        }
    }
}

impl WorkerView {
    /// A worker that has just started looks for its first connection.
    pub open spec fn start(addr: SocketAddress, config: WorkerConfig) -> WorkerView {
        WorkerView {
            addr,
            config,
            stream: false,
            should_reconnect: false,
            phase: PhaseView::Linking(LinkLoop::attempting(addr, config.reconnect_timeout)),
        }
    }

    /// The worker in another phase.
    pub open spec fn enter(self, phase: PhaseView) -> WorkerView {
        WorkerView { phase, ..self }
    }

    /// The worker's task ends.
    pub open spec fn stop(self) -> (WorkerView, ActionView) {
        (WorkerView { stream: false, phase: PhaseView::Stopped, ..self }, ActionView::Stop)
    }

    /// What a worker does once it has dealt with an event: it looks for a new connection if it is
    /// to, and waits for the next event otherwise.
    pub open spec fn resume(self) -> (WorkerView, ActionView) {
        match self.config.reconnect_timeout {
            Some(seconds) if self.should_reconnect => (
                self.enter(PhaseView::Linking(LinkLoop::waiting(self.addr, seconds))),
                ActionView::Link(LinkAction::Sleep { seconds }),
            ),
            _ => (
                self.enter(PhaseView::Idle),
                ActionView::Select { check_millis: CHECK_INTERVAL_MILLIS },
            ),
        }
    }

    /// The worker goes on with a command whose answer goes to `reply`.
    pub open spec fn carry_on(self, step: CommandStepView, reply: ReplySender) -> (
        WorkerView,
        ActionView,
    ) {
        match step {
            CommandStepView::Write(attempt) => (
                self.enter(PhaseView::Writing(attempt, reply)),
                ActionView::Write {
                    packet: attempt.packet,
                    timeout_millis: WRITE_TIMEOUT_MILLIS,
                },
            ),
            CommandStepView::Read(attempt) => (
                self.enter(PhaseView::Reading(attempt, reply)),
                ActionView::Read {
                    capacity: RESPONSE_CAPACITY,
                    timeout_millis: self.config.retry_interval,
                },
            ),
            CommandStepView::Done(result) => (
                self.enter(PhaseView::Replying),
                ActionView::Reply { reply, result },
            ),
        }
    }

    /// What follows an event.
    pub open spec fn after(self, event: EventView) -> (WorkerView, ActionView) {
        match (self.phase, event) {
            (PhaseView::Linking(link), EventView::Link(event)) => match link.after(event) {
                LinkStep::Continue(link) => (
                    self.enter(PhaseView::Linking(link)),
                    ActionView::Link(link.pending()),
                ),
                LinkStep::Up => WorkerView {
                    stream: true,
                    should_reconnect: false,
                    ..self
                }.resume(),
                LinkStep::Down => self.stop(),
                LinkStep::Unexpected => (self, ActionView::Unexpected(EventView::Link(event))),
            },
            (PhaseView::Idle, EventView::Command(command)) => if self.stream {
                self.carry_on(
                    CommandStepView::Write(
                        crate::command::first_attempt(command.packet, self.config.retry_count),
                    ),
                    command.reply,
                )
            } else {
                self.carry_on(CommandStepView::Done(Err(ErrorView::NotConnected)), command.reply)
            },
            (PhaseView::Idle, EventView::Tick) => if self.stream {
                (
                    self.enter(PhaseView::Probing),
                    ActionView::Probe { timeout_millis: CHECK_TIMEOUT_MILLIS },
                )
            } else {
                self.resume()
            },
            (PhaseView::Idle, EventView::Shutdown) => self.stop(),
            (PhaseView::Writing(attempt, reply), EventView::Written(outcome)) => self.carry_on(
                attempt.written(outcome),
                reply,
            ),
            (PhaseView::Reading(attempt, reply), EventView::Received(outcome)) => self.carry_on(
                attempt.received(outcome),
                reply,
            ),
            (PhaseView::Replying, EventView::Delivered) => self.resume(),
            (PhaseView::Probing, EventView::Probed(probe)) => if probe.alive() {
                self.resume()
            } else {
                (
                    self.enter(PhaseView::Losing),
                    ActionView::Notify(SocketStateChange::Disconnected),
                )
            },
            (PhaseView::Losing, EventView::Delivered) => if self.config.reconnect_timeout is Some {
                WorkerView { stream: false, should_reconnect: true, ..self }.resume()
            } else {
                self.stop()
            },
            _ => (self, ActionView::Unexpected(event)),
        }
    }
}

impl Worker {
    /// Starts a worker: it looks for its first connection to the peer at `addr`.
    pub fn worker_task(addr: SocketAddress, config: WorkerConfig) -> (started: (
        Worker,
        WorkerAction,
    ))
        ensures
            started.0@ == WorkerView::start(addr, config),
            started.1@ == ActionView::Link(
                LinkLoop::attempting(addr, config.reconnect_timeout).pending(),
            ),
    {
        let link = LinkLoop::initial_connect(addr, config.reconnect_timeout);
        (
            Worker {
                addr,
                config,
                stream: false,
                should_reconnect: false,
                phase: Phase::Linking(link),
            },
            WorkerAction::Link(link.action()),
        )
    }

    /// Whether the worker holds a stream.
    pub fn holds_stream(&self) -> (holds: bool)
        ensures
            holds == self@.stream,
    {
        self.stream
    }

    /// Takes note of an event and says what to do next.
    pub fn step(&mut self, event: WorkerEvent) -> (action: WorkerAction)
        ensures
            (final(self)@, action@) == old(self)@.after(event@),
    {
        let mut phase = Phase::Stopped;
        core::mem::swap(&mut self.phase, &mut phase);
        match (phase, event) {
            (Phase::Linking(link), WorkerEvent::Link(event)) => match link.step(event) {
                LinkStep::Continue(link) => {
                    self.phase = Phase::Linking(link);
                    WorkerAction::Link(link.action())
                },
                LinkStep::Up => {
                    self.stream = true;
                    self.should_reconnect = false;
                    self.resume()
                },
                LinkStep::Down => self.stop(),
                LinkStep::Unexpected => {
                    self.phase = Phase::Linking(link);
                    WorkerAction::Unexpected(WorkerEvent::Link(event))
                },
            },
            (Phase::Idle, WorkerEvent::Woke(Wakeup::Command(command))) => {
                let step = if self.stream {
                    CommandStep::Write(execute_command(command.packet, self.config.retry_count))
                } else {
                    CommandStep::Done(Err(ModbusTCPError::NotConnected))
                };
                self.carry_on(step, command.reply)
            },
            (Phase::Idle, WorkerEvent::Woke(Wakeup::Tick)) => if self.stream {
                self.phase = Phase::Probing;
                WorkerAction::Probe { timeout_millis: CHECK_TIMEOUT_MILLIS }
            } else {
                self.resume()
            },
            (Phase::Idle, WorkerEvent::Woke(Wakeup::Shutdown)) => self.stop(),
            (Phase::Writing(pending, reply), WorkerEvent::Written(outcome)) => {
                self.carry_on(pending.written(outcome), reply)
            },
            (Phase::Reading(pending, reply), WorkerEvent::Received(outcome)) => {
                self.carry_on(pending.received(outcome), reply)
            },
            (Phase::Replying, WorkerEvent::Delivered) => self.resume(),
            (Phase::Probing, WorkerEvent::Probed(probe)) => if check_socket_alive(probe) {
                self.resume()
            } else {
                self.phase = Phase::Losing;
                WorkerAction::Notify(SocketStateChange::Disconnected)
            },
            (Phase::Losing, WorkerEvent::Delivered) => if self.config.reconnect_timeout.is_some() {
                self.stream = false;
                self.should_reconnect = true;
                self.resume()
            } else {
                self.stop()
            },
            (phase, event) => {
                self.phase = phase;
                WorkerAction::Unexpected(event)
            },
        }
    }

    fn stop(&mut self) -> (action: WorkerAction)
        ensures
            (final(self)@, action@) == old(self)@.stop(),
    {
        self.stream = false;
        self.phase = Phase::Stopped;
        WorkerAction::Stop
    }

    fn resume(&mut self) -> (action: WorkerAction)
        ensures
            (final(self)@, action@) == old(self)@.resume(),
    {
        match self.config.reconnect_timeout {
            Some(seconds) if self.should_reconnect => {
                let link = LinkLoop::reconnect_loop(self.addr, seconds);
                self.phase = Phase::Linking(link);
                WorkerAction::Link(link.action())
            },
            _ => {
                self.phase = Phase::Idle;
                WorkerAction::Select { check_millis: CHECK_INTERVAL_MILLIS }
            },
        }
    }

    fn carry_on(&mut self, step: CommandStep, reply: ReplySender) -> (action: WorkerAction)
        ensures
            (final(self)@, action@) == old(self)@.carry_on(step@, reply),
    {
        match step {
            CommandStep::Write(pending) => {
                let packet = pending.packet();
                self.phase = Phase::Writing(pending, reply);
                WorkerAction::Write { packet, timeout_millis: WRITE_TIMEOUT_MILLIS }
            },
            CommandStep::Read(pending) => {
                self.phase = Phase::Reading(pending, reply);
                WorkerAction::Read {
                    capacity: RESPONSE_CAPACITY,
                    timeout_millis: self.config.retry_interval,
                }
            },
            CommandStep::Done(result) => {
                self.phase = Phase::Replying;
                WorkerAction::Reply { reply, result }
            },
        }
    }
}

} // verus!
