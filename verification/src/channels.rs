//! The channels between a client and its worker.
//!
//! The ends of a channel are moved around and never looked into. All that is known of them is
//! which two belong together, and how many messages their channel holds.

use crate::command::CommandResult;
use crate::link::SocketStateChange;
use crate::worker::ModbusCommand;
use tokio::sync::{mpsc, oneshot};
use vstd::prelude::*;

verus! {

/// The receiving end of a bounded `tokio` channel.
#[verifier::external_type_specification]
#[verifier::external_body]
#[verifier::reject_recursive_types(T)]
pub struct ExMpscReceiver<T>(tokio::sync::mpsc::Receiver<T>);

/// The sending end of a bounded `tokio` channel.
#[verifier::external_type_specification]
#[verifier::external_body]
#[verifier::reject_recursive_types(T)]
pub struct ExMpscSender<T>(tokio::sync::mpsc::Sender<T>);

/// The sending end of a `tokio` channel for a single value.
#[verifier::external_type_specification]
#[verifier::external_body]
#[verifier::reject_recursive_types(T)]
pub struct ExOneshotSender<T>(tokio::sync::oneshot::Sender<T>);

/// What a `tokio` channel for a single value yields when its sending end is gone.
#[verifier::external_type_specification]
#[verifier::external_body]
pub struct ExOneshotRecvError(tokio::sync::oneshot::error::RecvError);

/// The receiving end of a `tokio` channel for a single value.
#[verifier::external_type_specification]
#[verifier::external_body]
#[verifier::reject_recursive_types(T)]
pub struct ExOneshotReceiver<T>(tokio::sync::oneshot::Receiver<T>);

/// What awaiting a `tokio` task yields when the task did not run to its end.
#[verifier::external_type_specification]
#[verifier::external_body]
pub struct ExJoinError(tokio::task::JoinError);

/// The handle on which the end of a `tokio` task can be awaited.
#[verifier::external_type_specification]
#[verifier::external_body]
#[verifier::reject_recursive_types(T)]
pub struct ExJoinHandle<T>(tokio::task::JoinHandle<T>);

/// The capacity of the channel that `tx` and `rx` are the ends of, or nothing if they are not the
/// ends of one channel.
pub uninterp spec fn state_channel(
    tx: mpsc::Sender<SocketStateChange>,
    rx: mpsc::Receiver<SocketStateChange>,
) -> Option<nat>;

/// The capacity of the channel that `tx` and `rx` are the ends of, or nothing if they are not the
/// ends of one channel.
pub uninterp spec fn shutdown_channel(
    tx: mpsc::Sender<()>,
    rx: mpsc::Receiver<()>,
) -> Option<nat>;

/// The capacity of the channel that `tx` and `rx` are the ends of, or nothing if they are not the
/// ends of one channel.
pub uninterp spec fn command_channel(
    tx: mpsc::Sender<ModbusCommand>,
    rx: mpsc::Receiver<ModbusCommand>,
) -> Option<nat>;

/// `tx` and `rx` are the ends of one channel.
pub uninterp spec fn reply_channel(
    tx: oneshot::Sender<CommandResult>,
    rx: oneshot::Receiver<CommandResult>,
) -> bool;

/// Both ends of every channel between a client and its worker.
pub struct Channels {
    pub state_tx: mpsc::Sender<SocketStateChange>,
    pub state_rx: mpsc::Receiver<SocketStateChange>,
    pub shutdown_tx: mpsc::Sender<()>,
    pub shutdown_rx: mpsc::Receiver<()>,
    pub cmd_tx: mpsc::Sender<ModbusCommand>,
    pub cmd_rx: mpsc::Receiver<ModbusCommand>,
}

/// Opens the channels between a client and its worker with `tokio::sync::mpsc::channel`.
///
/// Taken on trust: a call of that function yields the two ends of one channel, which holds up to
/// `capacity` messages. It panics if the capacity is zero or above `Semaphore::MAX_PERMITS`,
/// which is an eighth of the range of `usize`. The messages that wait in a channel change while
/// its ends stay the same, so nothing is said of them, not even that there are none at first.
#[verifier::external_body]
pub(crate) fn open_channels(capacity: usize) -> (channels: Channels)
    requires
        0 < capacity <= usize::MAX / 8,
    ensures
        state_channel(channels.state_tx, channels.state_rx) == Some(capacity as nat),
        shutdown_channel(channels.shutdown_tx, channels.shutdown_rx) == Some(capacity as nat),
        command_channel(channels.cmd_tx, channels.cmd_rx) == Some(capacity as nat),
{
    let (state_tx, state_rx) = mpsc::channel(capacity);
    let (shutdown_tx, shutdown_rx) = mpsc::channel(capacity);
    let (cmd_tx, cmd_rx) = mpsc::channel(capacity);
    Channels { state_tx, state_rx, shutdown_tx, shutdown_rx, cmd_tx, cmd_rx }
}

/// Opens a channel for the answer to one command with `tokio::sync::oneshot::channel`.
///
/// Taken on trust: that function yields the two ends of one channel. Nothing is said of the value
/// that passes through it.
#[verifier::external_body]
pub(crate) fn open_reply_channel() -> (ends: (
    oneshot::Sender<CommandResult>,
    oneshot::Receiver<CommandResult>,
))
    ensures
        reply_channel(ends.0, ends.1),
{
    oneshot::channel()
}

} // verus!