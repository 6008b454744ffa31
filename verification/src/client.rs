//! The client that a caller holds.

use crate::builder::{BuilderView, ModbusTCPClientBuilder};
use crate::channels::{
    command_channel, open_channels, open_reply_channel, reply_channel, shutdown_channel,
    state_channel,
};
use crate::command::{result_view, CommandResult, CommandResultView};
use crate::error::{ErrorView, ModbusTCPError};
use crate::ipv4::SocketAddress;
use crate::link::SocketStateChange;
use crate::worker::{ModbusCommand, WorkerConfig};
use tokio::sync::{mpsc, oneshot};
use tokio::task::JoinHandle;
use vstd::prelude::*;
use vstd::string::*;

verus! {

/// How many messages each channel between a client and its worker holds.
pub const CHANNEL_CAPACITY: usize = 1;

/// A connection to a Modbus TCP peer, kept up by a worker.
pub struct ModbusTCPClient {
    socket_addr: SocketAddress,
    config: WorkerConfig,
    state_rx: Option<mpsc::Receiver<SocketStateChange>>,
    cmd_tx: Option<mpsc::Sender<ModbusCommand>>,
    worker_handle: Option<JoinHandle<()>>,
    shutdown_tx: Option<mpsc::Sender<()>>,
}

/// A client: its peer, what its worker is told, and the handles that it keeps.
pub struct ClientView {
    pub socket_addr: SocketAddress,
    pub config: WorkerConfig,
    pub state_rx: Option<mpsc::Receiver<SocketStateChange>>,
    pub cmd_tx: Option<mpsc::Sender<ModbusCommand>>,
    pub worker_handle: Option<JoinHandle<()>>,
    pub shutdown_tx: Option<mpsc::Sender<()>>,
}

/// What a worker is started with: its peer, its configuration and its ends of the channels to its
/// client.
pub struct WorkerSetup {
    /// The peer that the worker is to connect to.
    pub addr: SocketAddress,
    /// What the worker is told of retries and reconnections.
    pub config: WorkerConfig,
    /// Changes of the connection's state go in here.
    pub state_tx: mpsc::Sender<SocketStateChange>,
    /// The client's wish that the worker stop comes out here.
    pub shutdown_rx: mpsc::Receiver<()>,
    /// Commands come out here.
    pub cmd_rx: mpsc::Receiver<ModbusCommand>,
}

/// What is left to do to stop a worker: send the wish to stop, then wait for the task's end.
pub struct Teardown {
    /// Where the wish to stop goes.
    pub shutdown_tx: Option<mpsc::Sender<()>>,
    /// The task whose end is to be awaited.
    pub worker_handle: Option<JoinHandle<()>>,
}

/// What became of a command.
pub enum Delivery {
    /// The worker does not take commands any more.
    Refused,
    /// The worker let go of the command without an answer.
    Dropped,
    /// The worker answered.
    Answered(CommandResult),
}

/// [`Delivery`] with the answer replaced by what it holds.
pub enum DeliveryView {
    Refused,
    Dropped,
    Answered(CommandResultView),
}

impl View for Delivery {
    type V = DeliveryView;

    open spec fn view(&self) -> DeliveryView {
        match self {
            Delivery::Refused => DeliveryView::Refused,
            Delivery::Dropped => DeliveryView::Dropped,
            Delivery::Answered(result) => DeliveryView::Answered(result_view(*result)),
        }
    }
}

impl View for ModbusTCPClient {
    type V = ClientView;

    closed spec fn view(&self) -> ClientView {
        ClientView {
            socket_addr: self.socket_addr,
            config: self.config,
            state_rx: self.state_rx,
            cmd_tx: self.cmd_tx,
            worker_handle: self.worker_handle,
            shutdown_tx: self.shutdown_tx,
        }
    }
}

impl ClientView {
    /// A client that has never been connected.
    pub open spec fn fresh(socket_addr: SocketAddress, config: WorkerConfig) -> ClientView {
        ClientView {
            socket_addr,
            config,
            state_rx: None,
            cmd_tx: None,
            worker_handle: None,
            shutdown_tx: None,
        }
    }

    /// The client once it keeps its ends of the channels to a new worker.
    pub open spec fn connected(
        self,
        state_rx: mpsc::Receiver<SocketStateChange>,
        cmd_tx: mpsc::Sender<ModbusCommand>,
        shutdown_tx: mpsc::Sender<()>,
    ) -> ClientView {
        ClientView {
            state_rx: Some(state_rx),
            cmd_tx: Some(cmd_tx),
            shutdown_tx: Some(shutdown_tx),
            ..self
        }
    }

    /// The client once it keeps the handle of its worker's task.
    pub open spec fn attached(self, worker_handle: JoinHandle<()>) -> ClientView {
        ClientView { worker_handle: Some(worker_handle), ..self }
    }

    /// The client once somebody has subscribed.
    pub open spec fn subscribed(self) -> ClientView {
        ClientView { state_rx: None, ..self }
    }

    /// The client once its worker has been told to stop.
    pub open spec fn disconnected(self) -> ClientView {
        ClientView { worker_handle: None, shutdown_tx: None, ..self }
    }
}

impl ModbusTCPClient {
    /// A builder with nothing set.
    pub fn builder() -> (builder: ModbusTCPClientBuilder)
        ensures
            builder@ == BuilderView::empty(),
    {
        ModbusTCPClientBuilder::new()
    }

    pub(crate) fn fresh(socket_addr: SocketAddress, config: WorkerConfig) -> (client: ModbusTCPClient)
        ensures
            client@ == ClientView::fresh(socket_addr, config),
    {
        ModbusTCPClient {
            socket_addr,
            config,
            state_rx: None,
            cmd_tx: None,
            worker_handle: None,
            shutdown_tx: None,
        }
    }

    /// Hands out the receiver of the connection's state changes, unless it has been handed out
    /// already or the client has never been connected.
    pub fn subscribe(&mut self) -> (receiver: Result<
        mpsc::Receiver<SocketStateChange>,
        ModbusTCPError,
    >)
        ensures
            final(self)@ == old(self)@.subscribed(),
            match old(self)@.state_rx {
                Some(state_rx) => receiver == Ok::<_, ModbusTCPError>(state_rx),
                None => receiver matches Err(error) && error@ is AlreadySubscribed,
            },
    {
        self.state_rx.take().ok_or(ModbusTCPError::AlreadySubscribed)
    }

    /// Opens the channels to a new worker. The client keeps its ends in place of those of an
    /// earlier worker and hands out the others, with its peer and what the worker is told.
    pub fn connect(&mut self) -> (setup: WorkerSetup)
        ensures
            setup.addr == old(self)@.socket_addr,
            setup.config == old(self)@.config,
            final(self)@.state_rx is Some,
            final(self)@.cmd_tx is Some,
            final(self)@.shutdown_tx is Some,
            final(self)@ == old(self)@.connected(
                final(self)@.state_rx->Some_0,
                final(self)@.cmd_tx->Some_0,
                final(self)@.shutdown_tx->Some_0,
            ),
            state_channel(setup.state_tx, final(self)@.state_rx->Some_0) == Some(
                CHANNEL_CAPACITY as nat,
            ),
            command_channel(final(self)@.cmd_tx->Some_0, setup.cmd_rx) == Some(
                CHANNEL_CAPACITY as nat,
            ),
            shutdown_channel(final(self)@.shutdown_tx->Some_0, setup.shutdown_rx) == Some(
                CHANNEL_CAPACITY as nat,
            ),
    {
        let channels = open_channels(CHANNEL_CAPACITY);
        self.cmd_tx = Some(channels.cmd_tx);
        self.state_rx = Some(channels.state_rx);
        self.shutdown_tx = Some(channels.shutdown_tx);
        WorkerSetup {
            addr: self.socket_addr,
            config: self.config,
            state_tx: channels.state_tx,
            shutdown_rx: channels.shutdown_rx,
            cmd_rx: channels.cmd_rx,
        }
    }

    /// Keeps the handle of the worker's task in place of that of an earlier one.
    pub fn attach_worker(&mut self, worker_handle: JoinHandle<()>)
        ensures
            final(self)@ == old(self)@.attached(worker_handle),
    {
        self.worker_handle = Some(worker_handle);
    }

    /// Gives up the handles by which the worker is stopped. Commands and subscriptions keep
    /// going where they went.
    pub fn disconnect(&mut self) -> (teardown: Teardown)
        ensures
            final(self)@ == old(self)@.disconnected(),
            teardown.shutdown_tx == old(self)@.shutdown_tx,
            teardown.worker_handle == old(self)@.worker_handle,
    {
        Teardown { shutdown_tx: self.shutdown_tx.take(), worker_handle: self.worker_handle.take() }
    }

    /// Makes a command of a message: says where the command goes and where its answer will come
    /// out.
    pub fn send_request(&self, msg: Vec<u8>) -> (sending: Result<
        (&mpsc::Sender<ModbusCommand>, ModbusCommand, oneshot::Receiver<CommandResult>),
        ModbusTCPError,
    >)
        ensures
            match self@.cmd_tx {
                Some(cmd_tx) => sending matches Ok((to, command, answer)) && *to == cmd_tx
                    && command.packet@ == msg@ && reply_channel(command.reply, answer),
                None => sending matches Err(error) && error@ is NotConnected,
            },
    {
        let (reply, answer) = open_reply_channel();
        let command = ModbusCommand { packet: msg, reply };
        match &self.cmd_tx {
            Some(cmd_tx) => Ok((cmd_tx, command, answer)),
            None => Err(ModbusTCPError::NotConnected),
        }
    }
}

impl DeliveryView {
    /// The caller gets the worker's answer; a command that got none failed in transport.
    pub open spec fn result(self) -> CommandResultView {
        match self {
            DeliveryView::Answered(result) => result,
            DeliveryView::Refused | DeliveryView::Dropped => Err(
                ErrorView::ModbusClientError("Transport error"@),
            ),
        }
    }
}

/// What the caller gets for a command.
pub fn request_result(delivery: Delivery) -> (result: CommandResult)
    ensures
        result_view(result) == delivery@.result(),
{
    match delivery {
        Delivery::Answered(result) => result,
        Delivery::Refused | Delivery::Dropped => Err(
            ModbusTCPError::ModbusClientError("Transport error".to_string()),
        ),
    }
}

} // verus!
