//! What holds of a client over every sequence of calls.

use crate::client::{ClientView, Delivery, DeliveryView, CHANNEL_CAPACITY};
use crate::command::{result_view, CommandResult, CommandResultView};
use crate::error::ErrorView;
use crate::ipv4::SocketAddress;
use crate::link::SocketStateChange;
use crate::worker::{ModbusCommand, WorkerConfig};
use tokio::sync::mpsc;
use tokio::task::JoinHandle;
use vstd::prelude::*;

verus! {

/// A call that changes what a client keeps.
pub enum ClientCall {
    /// The client is connected and keeps these ends of the new channels.
    Connect {
        state_rx: mpsc::Receiver<SocketStateChange>,
        cmd_tx: mpsc::Sender<ModbusCommand>,
        shutdown_tx: mpsc::Sender<()>,
    },
    /// The client is given the handle of its worker's task.
    Attach { worker_handle: JoinHandle<()> },
    /// Somebody subscribes.
    Subscribe,
    /// The client is disconnected.
    Disconnect,
}

impl ClientView {
    /// The client once it has been called.
    pub open spec fn called(self, call: ClientCall) -> ClientView {
        match call {
            ClientCall::Connect { state_rx, cmd_tx, shutdown_tx } => self.connected(
                state_rx,
                cmd_tx,
                shutdown_tx,
            ),
            ClientCall::Attach { worker_handle } => self.attached(worker_handle),
            ClientCall::Subscribe => self.subscribed(),
            ClientCall::Disconnect => self.disconnected(),
        }
    }
}

/// The client once `calls` have been made, one after the other.
pub open spec fn after_calls(client: ClientView, calls: Seq<ClientCall>) -> ClientView
    decreases calls.len(),
{
    if calls.len() == 0 {
        client
    } else {
        after_calls(client, calls.drop_last()).called(calls.last())
    }
}

/// The client has been connected, and `calls[at]` did so last.
pub open spec fn connected_last(calls: Seq<ClientCall>, at: int) -> bool {
    &&& 0 <= at < calls.len()
    &&& calls[at] is Connect
    &&& forall|i: int| at < i < calls.len() ==> !(#[trigger] calls[i] is Connect)
}

/// The client has been given the handle of a task, and `calls[at]` did so last.
pub open spec fn attached_last(calls: Seq<ClientCall>, at: int) -> bool {
    &&& 0 <= at < calls.len()
    &&& calls[at] is Attach
    &&& forall|i: int| at < i < calls.len() ==> !(#[trigger] calls[i] is Attach)
}

/// Somebody subscribed after `calls[at]`.
pub open spec fn subscribed_since(calls: Seq<ClientCall>, at: int) -> bool {
    exists|i: int| at < i < calls.len() && #[trigger] calls[i] is Subscribe
}

/// The client was disconnected after `calls[at]`.
pub open spec fn disconnected_since(calls: Seq<ClientCall>, at: int) -> bool {
    exists|i: int| at < i < calls.len() && #[trigger] calls[i] is Disconnect
}

/// What a client keeps of the connection that `calls[at]` made last.
spec fn keeps(client: ClientView, calls: Seq<ClientCall>, at: int) -> bool {
    &&& client.cmd_tx == Some(calls[at]->cmd_tx)
    &&& client.state_rx == if subscribed_since(calls, at) {
        None
    } else {
        Some(calls[at]->state_rx)
    }
    &&& client.shutdown_tx == if disconnected_since(calls, at) {
        None
    } else {
        Some(calls[at]->shutdown_tx)
    }
}

proof fn lemma_calls(client: ClientView, calls: Seq<ClientCall>)
    requires
        client == ClientView::fresh(client.socket_addr, client.config),
    ensures
        after_calls(client, calls).socket_addr == client.socket_addr,
        after_calls(client, calls).config == client.config,
        forall|at: int| #[trigger]
            connected_last(calls, at) ==> keeps(after_calls(client, calls), calls, at),
        (forall|at: int| 0 <= at < calls.len() ==> !(#[trigger] calls[at] is Connect)) ==> {
            let after = after_calls(client, calls);
            after.cmd_tx is None && after.state_rx is None && after.shutdown_tx is None
        },
    decreases calls.len(),
{
    if calls.len() > 0 {
        let before = calls.drop_last();
        lemma_calls(client, before);
        let after = after_calls(client, calls);
        assert forall|at: int| #[trigger] connected_last(calls, at) implies keeps(
            after,
            calls,
            at,
        ) by {
            if at < before.len() {
                assert(connected_last(before, at)) by {
                    assert forall|i: int| at < i < before.len() implies !(#[trigger] before[i] is
                        Connect) by {
                        assert(calls[i] == before[i]);
                    }
                }
                assert(before[at] == calls[at]);
                assert forall|i: int| at < i < before.len() implies #[trigger] calls[i]
                    == before[i] by {}
                assert(calls[calls.len() - 1] == calls.last());
            }
        }
        if forall|at: int| 0 <= at < calls.len() ==> !(#[trigger] calls[at] is Connect) {
            assert forall|at: int| 0 <= at < before.len() implies !(#[trigger] before[at] is
                Connect) by {
                assert(calls[at] == before[at]);
            }
            assert(!(calls[calls.len() - 1] is Connect));
        }
    }
}

/// A client has a way to send requests exactly if it has ever been connected: it leads to the
/// worker of the latest connection, and neither subscribing nor disconnecting takes it away.
pub proof fn law_requests_go_to_the_latest_worker(
    socket_addr: SocketAddress,
    config: WorkerConfig,
    calls: Seq<ClientCall>,
)
    ensures
        ({
            let cmd_tx = after_calls(ClientView::fresh(socket_addr, config), calls).cmd_tx;
            &&& cmd_tx is Some <==> exists|at: int|
                0 <= at < calls.len() && #[trigger] calls[at] is Connect
            &&& forall|at: int| #[trigger]
                connected_last(calls, at) ==> cmd_tx == Some(calls[at]->cmd_tx)
        }),
{
    lemma_calls(ClientView::fresh(socket_addr, config), calls);
    if exists|at: int| 0 <= at < calls.len() && #[trigger] calls[at] is Connect {
        lemma_some_connection_is_the_latest(calls);
    }
}

proof fn lemma_some_connection_is_the_latest(calls: Seq<ClientCall>)
    requires
        exists|at: int| 0 <= at < calls.len() && #[trigger] calls[at] is Connect,
    ensures
        exists|at: int| connected_last(calls, at),
    decreases calls.len(),
{
    let before = calls.drop_last();
    if calls.last() is Connect {
        assert(connected_last(calls, calls.len() - 1));
    } else {
        let some = choose|at: int| 0 <= at < calls.len() && #[trigger] calls[at] is Connect;
        assert(before[some] is Connect);
        lemma_some_connection_is_the_latest(before);
        let at = choose|at: int| connected_last(before, at);
        assert(connected_last(calls, at)) by {
            assert(calls[at] == before[at]);
            assert forall|i: int| at < i < calls.len() implies !(#[trigger] calls[i] is Connect) by {
                if i < before.len() {
                    assert(calls[i] == before[i]);
                }
            }
        }
    }
}

/// The receiver of state changes can be had exactly once after each time the client is connected,
/// and not before the first time: a client has it exactly if it has been connected and nobody has
/// subscribed since the latest time, and it is the one of that connection.
pub proof fn law_one_subscription_per_connection(
    socket_addr: SocketAddress,
    config: WorkerConfig,
    calls: Seq<ClientCall>,
)
    ensures
        ({
            let state_rx = after_calls(ClientView::fresh(socket_addr, config), calls).state_rx;
            &&& state_rx is Some <==> exists|at: int| #[trigger]
                connected_last(calls, at) && !subscribed_since(calls, at)
            &&& forall|at: int| #[trigger]
                connected_last(calls, at) && !subscribed_since(calls, at) ==> state_rx == Some(
                    calls[at]->state_rx,
                )
        }),
{
    lemma_calls(ClientView::fresh(socket_addr, config), calls);
    if exists|at: int| 0 <= at < calls.len() && #[trigger] calls[at] is Connect {
        lemma_some_connection_is_the_latest(calls);
    }
}

/// Between two subscriptions that each get a receiver the client has been connected again.
pub proof fn law_subscribers_are_separated_by_connections(
    socket_addr: SocketAddress,
    config: WorkerConfig,
    calls: Seq<ClientCall>,
    first: int,
    second: int,
)
    requires
        0 <= first < second < calls.len(),
        calls[first] is Subscribe,
        calls[second] is Subscribe,
        after_calls(ClientView::fresh(socket_addr, config), calls.take(second)).state_rx is Some,
    ensures
        exists|at: int| first < at < second && #[trigger] calls[at] is Connect,
{
    let before = calls.take(second);
    law_one_subscription_per_connection(socket_addr, config, before);
    let at = choose|at: int| #[trigger] connected_last(before, at) && !subscribed_since(before, at);
    assert(before[first] is Subscribe);
    assert(calls[at] == before[at]);
}

/// The worker that a disconnection stops is the one of the latest connection, and it is told to
/// stop once: a client has a way to tell it exactly if it has been connected and has not been
/// disconnected since the latest time.
pub proof fn law_the_latest_worker_is_stopped_once(
    socket_addr: SocketAddress,
    config: WorkerConfig,
    calls: Seq<ClientCall>,
)
    ensures
        ({
            let shutdown_tx = after_calls(
                ClientView::fresh(socket_addr, config),
                calls,
            ).shutdown_tx;
            &&& shutdown_tx is Some <==> exists|at: int| #[trigger]
                connected_last(calls, at) && !disconnected_since(calls, at)
            &&& forall|at: int| #[trigger]
                connected_last(calls, at) && !disconnected_since(calls, at) ==> shutdown_tx == Some(
                    calls[at]->shutdown_tx,
                )
        }),
{
    lemma_calls(ClientView::fresh(socket_addr, config), calls);
    if exists|at: int| 0 <= at < calls.len() && #[trigger] calls[at] is Connect {
        lemma_some_connection_is_the_latest(calls);
    }
}

proof fn lemma_handle(client: ClientView, calls: Seq<ClientCall>)
    requires
        client.worker_handle is None,
    ensures
        ({
            let handle = after_calls(client, calls).worker_handle;
            &&& forall|at: int| #[trigger]
                attached_last(calls, at) ==> handle == if disconnected_since(calls, at) {
                    None
                } else {
                    Some(calls[at]->worker_handle)
                }
            &&& handle is Some ==> exists|at: int| attached_last(calls, at)
        }),
    decreases calls.len(),
{
    if calls.len() > 0 {
        let before = calls.drop_last();
        lemma_handle(client, before);
        let handle = after_calls(client, calls).worker_handle;
        assert(calls[calls.len() - 1] == calls.last());
        assert forall|at: int| #[trigger] attached_last(calls, at) implies handle
            == if disconnected_since(calls, at) {
            None
        } else {
            Some(calls[at]->worker_handle)
        } by {
            if at < before.len() {
                assert forall|i: int| 0 <= i < before.len() implies #[trigger] before[i]
                    == calls[i] by {}
                assert(attached_last(before, at));
                assert forall|i: int| at < i < before.len() implies #[trigger] calls[i]
                    == before[i] by {}
            }
        }
        if handle is Some {
            if calls.last() is Attach {
                assert(attached_last(calls, calls.len() - 1));
            } else {
                let at = choose|at: int| attached_last(before, at);
                assert(before[at] == calls[at]);
                assert forall|i: int| at < i < calls.len() implies !(#[trigger] calls[i] is
                    Attach) by {
                    if i < before.len() {
                        assert(calls[i] == before[i]);
                    }
                }
                assert(attached_last(calls, at));
            }
        }
    }
}

/// The task whose end a disconnection waits for is the one attached last, and it is waited for
/// once: a client has a handle exactly if it has been given one and has not been disconnected
/// since the latest time.
pub proof fn law_the_latest_task_is_awaited_once(
    socket_addr: SocketAddress,
    config: WorkerConfig,
    calls: Seq<ClientCall>,
)
    ensures
        ({
            let handle = after_calls(ClientView::fresh(socket_addr, config), calls).worker_handle;
            &&& handle is Some <==> exists|at: int| #[trigger]
                attached_last(calls, at) && !disconnected_since(calls, at)
            &&& forall|at: int| #[trigger]
                attached_last(calls, at) && !disconnected_since(calls, at) ==> handle == Some(
                    calls[at]->worker_handle,
                )
        }),
{
    lemma_handle(ClientView::fresh(socket_addr, config), calls);
}

/// Whatever calls are made, a client keeps its peer and what its workers are told.
pub proof fn law_peer_and_configuration_stay(
    socket_addr: SocketAddress,
    config: WorkerConfig,
    calls: Seq<ClientCall>,
)
    ensures
        after_calls(ClientView::fresh(socket_addr, config), calls).socket_addr == socket_addr,
        after_calls(ClientView::fresh(socket_addr, config), calls).config == config,
{
    lemma_calls(ClientView::fresh(socket_addr, config), calls);
}

/// Connecting again leaves nothing of an earlier worker behind.
pub proof fn law_connecting_again_replaces_the_worker(
    client: ClientView,
    earlier_state_rx: mpsc::Receiver<SocketStateChange>,
    earlier_cmd_tx: mpsc::Sender<ModbusCommand>,
    earlier_shutdown_tx: mpsc::Sender<()>,
    earlier_handle: JoinHandle<()>,
    state_rx: mpsc::Receiver<SocketStateChange>,
    cmd_tx: mpsc::Sender<ModbusCommand>,
    shutdown_tx: mpsc::Sender<()>,
    worker_handle: JoinHandle<()>,
)
    ensures
        client.connected(earlier_state_rx, earlier_cmd_tx, earlier_shutdown_tx).attached(
            earlier_handle,
        ).connected(state_rx, cmd_tx, shutdown_tx).attached(worker_handle) == client.connected(
            state_rx,
            cmd_tx,
            shutdown_tx,
        ).attached(worker_handle),
{
}

/// Disconnecting twice is the same as disconnecting once. It does not take away the way to the
/// worker, so a later request is not turned down as not connected.
pub proof fn law_disconnecting_is_idempotent(client: ClientView)
    ensures
        client.disconnected().disconnected() == client.disconnected(),
        client.disconnected().shutdown_tx is None,
        client.disconnected().worker_handle is None,
        client.disconnected().cmd_tx == client.cmd_tx,
{
}

/// As a worker's answers never pass on a unit's error, the result of a request is never one.
pub proof fn law_requests_do_not_fail_in_a_unit(delivery: DeliveryView)
    requires
        !(delivery matches DeliveryView::Answered(Err(ErrorView::ModbusUnitError(_)))),
    ensures
        !(delivery.result() matches Err(ErrorView::ModbusUnitError(_))),
{
}

/// The caller gets the worker's answer, whatever it is: a success stays a success with the same
/// bytes, and a failure stays the same failure.
pub proof fn law_answer_reaches_the_caller(result: CommandResultView)
    ensures
        DeliveryView::Answered(result).result() == result,
        DeliveryView::Answered(result).result() is Ok <==> result is Ok,
{
}

/// A command that was not taken or not answered failed in transport; a caller gets a success only
/// from a worker that answered with one.
pub proof fn law_success_comes_from_the_worker(delivery: DeliveryView)
    ensures
        delivery is Refused || delivery is Dropped ==> delivery.result() == Err::<
            Seq<u8>,
            ErrorView,
        >(ErrorView::ModbusClientError("Transport error"@)),
        delivery.result() matches Ok(response) ==> delivery == DeliveryView::Answered(Ok(response)),
{
}

/// What became of a command is taken as it is.
pub proof fn law_deliveries_are_taken_as_they_are(result: CommandResult)
    ensures
        Delivery::Refused@ == DeliveryView::Refused,
        Delivery::Dropped@ == DeliveryView::Dropped,
        Delivery::Answered(result)@ == DeliveryView::Answered(result_view(result)),
{
}

/// Each call changes what it is about and leaves the rest of the client alone.
pub proof fn law_calls_change_what_they_are_about(
    client: ClientView,
    state_rx: mpsc::Receiver<SocketStateChange>,
    cmd_tx: mpsc::Sender<ModbusCommand>,
    shutdown_tx: mpsc::Sender<()>,
    worker_handle: JoinHandle<()>,
)
    ensures
        client.connected(state_rx, cmd_tx, shutdown_tx) == (ClientView {
            socket_addr: client.socket_addr,
            config: client.config,
            state_rx: Some(state_rx),
            cmd_tx: Some(cmd_tx),
            worker_handle: client.worker_handle,
            shutdown_tx: Some(shutdown_tx),
        }),
        client.attached(worker_handle) == (ClientView {
            socket_addr: client.socket_addr,
            config: client.config,
            state_rx: client.state_rx,
            cmd_tx: client.cmd_tx,
            worker_handle: Some(worker_handle),
            shutdown_tx: client.shutdown_tx,
        }),
        client.subscribed() == (ClientView {
            socket_addr: client.socket_addr,
            config: client.config,
            state_rx: None,
            cmd_tx: client.cmd_tx,
            worker_handle: client.worker_handle,
            shutdown_tx: client.shutdown_tx,
        }),
        client.disconnected() == (ClientView {
            socket_addr: client.socket_addr,
            config: client.config,
            state_rx: client.state_rx,
            cmd_tx: client.cmd_tx,
            worker_handle: None,
            shutdown_tx: None,
        }),
{
}

/// A client that has just been made knows its peer and its settings and keeps nothing else.
pub proof fn law_new_client_keeps_nothing(socket_addr: SocketAddress, config: WorkerConfig)
    ensures
        ClientView::fresh(socket_addr, config).socket_addr == socket_addr,
        ClientView::fresh(socket_addr, config).config == config,
        ClientView::fresh(socket_addr, config).state_rx is None,
        ClientView::fresh(socket_addr, config).cmd_tx is None,
        ClientView::fresh(socket_addr, config).worker_handle is None,
        ClientView::fresh(socket_addr, config).shutdown_tx is None,
{
}

/// Each channel holds a single message.
pub proof fn law_channels_hold_one_message()
    ensures
        CHANNEL_CAPACITY == 1,
{
}

} // verus!
