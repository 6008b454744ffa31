//! What a call gives, told by what goes in and what comes out.
//!
//! `call_ensures(f, arguments, result)` says that a call of `f` with `arguments` may give
//! `result`. Each law says what must hold then.

use crate::builder::{BuilderView, ModbusTCPClientBuilder};
use crate::channels::{command_channel, reply_channel, shutdown_channel, state_channel};
use crate::client::{request_result, Delivery, ModbusTCPClient, Teardown, WorkerSetup};
use crate::command::{
    execute_command, CommandResult, CommandStep, PendingRead, PendingWrite, ReadOutcome,
    WriteOutcome,
};
use crate::error::ModbusTCPError;
use crate::error_laws::same_error;
use crate::ipv4::{parse_ipv4, Ipv4Address, SocketAddress};
use crate::ipv4_laws::{
    four_octets, law_address_is_written_octet_by_octet, law_notation_is_four_octets, spells,
};
use crate::link::{
    ConnectAction, ConnectAttempt, ConnectEvent, ConnectStage, ConnectStep, LinkAction, LinkEvent,
    LinkLoop, LinkStage, LinkStep, SocketStateChange,
};
use crate::transaction::{
    Direction, Outcome, Stage, Transaction, TransactionAction, TransactionEvent,
};
use crate::worker::{
    check_socket_alive, ModbusCommand, PhaseView, SocketProbe, Wakeup, Worker, WorkerAction,
    WorkerConfig, WorkerEvent, WorkerView,
};
use crate::worker_step_laws::can_happen;
use tokio::sync::{mpsc, oneshot};
use tokio::task::JoinHandle;
use vstd::prelude::*;
use vstd::string::*;

verus! {

/// A caller gets the worker's answer as it is, success or failure, and a failure in transport
/// where there is no answer.
pub proof fn law_request_result(delivery: Delivery, result: CommandResult)
    requires
        call_ensures(request_result, (delivery,), result),
    ensures
        match delivery {
            Delivery::Answered(Ok(response)) => result matches Ok(got) && got@ == response@,
            Delivery::Answered(Err(error)) => result matches Err(got) && got@ == error@,
            Delivery::Refused | Delivery::Dropped => result matches Err(
                ModbusTCPError::ModbusClientError(reason),
            ) && reason@ == "Transport error"@,
        },
{
}

/// A command starts with the write of its own bytes.
pub proof fn law_execute_command(
    packet: Vec<u8>,
    retry_count: usize,
    pending: PendingWrite,
    bytes: Vec<u8>,
)
    requires
        call_ensures(execute_command, (packet, retry_count), pending),
        call_ensures(PendingWrite::packet, (&pending,), bytes),
    ensures
        bytes@ == packet@,
        pending@.packet == packet@,
        pending@.retry_count == retry_count,
        pending@.number == 0,
{
}

/// A packet that went out is followed by a read. A write that failed is repeated with the same
/// bytes while repetitions are left, and is the answer after the last one.
pub proof fn law_written(pending: PendingWrite, outcome: WriteOutcome, step: CommandStep)
    requires
        call_ensures(PendingWrite::written, (pending, outcome), step),
        pending@.number <= pending@.retry_count,
    ensures
        outcome is Written ==> (step matches CommandStep::Read(reading) && reading@ == pending@),
        !(outcome is Written) && pending@.number < pending@.retry_count ==> (step matches
            CommandStep::Write(again) && again@.packet == pending@.packet && again@.retry_count
            == pending@.retry_count && again@.number == pending@.number + 1),
        !(outcome is Written) && pending@.number == pending@.retry_count ==> (step matches
            CommandStep::Done(Err(ModbusTCPError::ConnectionFailed(reason))) && reason@
            == match outcome {
            WriteOutcome::Failed(text) => text@,
            _ => "Write timeout"@,
        }),
{
}

/// A read that brought something ends the command with exactly the bytes that came. One that
/// brought nothing ends it too, as the peer is gone. A read that failed is followed by another
/// write of the same bytes while repetitions are left, and is the answer after the last one.
pub proof fn law_received(pending: PendingRead, outcome: ReadOutcome, step: CommandStep)
    requires
        call_ensures(PendingRead::received, (pending, outcome), step),
        pending@.number <= pending@.retry_count,
    ensures
        match outcome {
            ReadOutcome::Received { buffer, count } => {
                &&& 0 < count <= buffer@.len() ==> (step matches CommandStep::Done(Ok(response))
                    && response@.len() == count && forall|i: int|
                    0 <= i < count ==> #[trigger] response@[i] == buffer@[i])
                &&& count > buffer@.len() ==> (step matches CommandStep::Done(Ok(response))
                    && response@ == buffer@)
                &&& count == 0 ==> (step matches CommandStep::Done(
                    Err(ModbusTCPError::ConnectionFailed(reason)),
                ) && reason@ == "Connection closed"@)
            },
            _ => {
                &&& pending@.number < pending@.retry_count ==> (step matches CommandStep::Write(
                    again,
                ) && again@.packet == pending@.packet && again@.retry_count == pending@.retry_count
                    && again@.number == pending@.number + 1)
                &&& pending@.number == pending@.retry_count ==> (step matches CommandStep::Done(
                    Err(ModbusTCPError::ConnectionFailed(reason)),
                ) && reason@ == match outcome {
                    ReadOutcome::Failed(text) => text@,
                    _ => "Timeout"@,
                })
            },
        },
{
}

/// Only a peer that has closed its side makes a dead connection.
pub proof fn law_check_socket_alive(probe: SocketProbe, alive: bool)
    requires
        call_ensures(check_socket_alive, (probe,), alive),
    ensures
        alive <==> probe != (SocketProbe::Ready { read_closed: true }),
{
}

/// A text is read as an address exactly if it consists of four numbers from 0 to 255 with a dot
/// between each two, and then as those numbers in that order.
pub proof fn law_parse_ipv4(
    text: &str,
    address: Option<Ipv4Address>,
    a: Seq<char>,
    b: Seq<char>,
    c: Seq<char>,
    d: Seq<char>,
)
    requires
        call_ensures(parse_ipv4, (text,), address),
    ensures
        address is None ==> !four_octets(text@, a, b, c, d),
        address matches Some(octets) ==> {
            spells(a, octets.a as int) && spells(b, octets.b as int) && spells(c, octets.c as int)
                && spells(d, octets.d as int) ==> text@ == a + seq!['.'] + b + seq!['.'] + c + seq![
                '.',
            ] + d
        },
{
    law_notation_is_four_octets(text@);
    if let Some(octets) = address {
        if spells(a, octets.a as int) && spells(b, octets.b as int) && spells(c, octets.c as int)
            && spells(d, octets.d as int) {
            law_address_is_written_octet_by_octet(octets, a, b, c, d);
        }
    }
}

/// A builder starts without any setting.
pub proof fn law_new_builder(builder: ModbusTCPClientBuilder)
    requires
        call_ensures(ModbusTCPClientBuilder::new, (), builder) || call_ensures(
            ModbusTCPClient::builder,
            (),
            builder,
        ),
    ensures
        builder@ == (BuilderView {
            ip: None,
            port: None,
            reconnect_timeout: None,
            retry_timeout: None,
            retry_count: None,
        }),
{
}

/// The address is set if it is one, and nothing else changes.
pub proof fn law_ip(
    builder: &mut ModbusTCPClientBuilder,
    ip: &str,
    returned: &mut ModbusTCPClientBuilder,
)
    requires
        call_ensures(ModbusTCPClientBuilder::ip, (builder, ip), returned),
    ensures
        (exists|a: Seq<char>, b: Seq<char>, c: Seq<char>, d: Seq<char>|
            four_octets(ip@, a, b, c, d)) ==> old(returned)@ == (BuilderView {
            ip: Some(ip@),
            ..old(builder)@
        }),
        !(exists|a: Seq<char>, b: Seq<char>, c: Seq<char>, d: Seq<char>|
            four_octets(ip@, a, b, c, d)) ==> old(returned)@ == old(builder)@,
        *final(builder) == *final(returned),
{
    law_notation_is_four_octets(ip@);
}

/// The port is set if what was given fits one, and nothing else changes.
pub proof fn law_port<P: TryInto<u16>>(
    builder: &mut ModbusTCPClientBuilder,
    port: P,
    returned: &mut ModbusTCPClientBuilder,
)
    requires
        call_ensures(ModbusTCPClientBuilder::port::<P>, (builder, port), returned),
    ensures
        exists|number: Result<u16, P::Error>| #[trigger]
            call_ensures(P::try_into, (port,), number) && old(returned)@ == match number {
                Ok(number) => BuilderView { port: Some(number), ..old(builder)@ },
                Err(_) => old(builder)@,
            },
        *final(builder) == *final(returned),
{
}

/// The reconnect timeout is set to what was given, and nothing else changes.
pub proof fn law_reconnect_timeout(
    builder: &mut ModbusTCPClientBuilder,
    seconds: usize,
    returned: &mut ModbusTCPClientBuilder,
)
    requires
        call_ensures(ModbusTCPClientBuilder::reconnect_timeout, (builder, seconds), returned),
    ensures
        old(returned)@ == (BuilderView { reconnect_timeout: Some(seconds), ..old(builder)@ }),
        *final(builder) == *final(returned),
{
}

/// The retry timeout is set to what was given, and nothing else changes.
pub proof fn law_retry_timeout(
    builder: &mut ModbusTCPClientBuilder,
    milli_seconds: u64,
    returned: &mut ModbusTCPClientBuilder,
)
    requires
        call_ensures(ModbusTCPClientBuilder::retry_timeout, (builder, milli_seconds), returned),
    ensures
        old(returned)@ == (BuilderView { retry_timeout: Some(milli_seconds), ..old(builder)@ }),
        *final(builder) == *final(returned),
{
}

/// The retry count is set to what was given, and nothing else changes.
pub proof fn law_retry_count(
    builder: &mut ModbusTCPClientBuilder,
    count: usize,
    returned: &mut ModbusTCPClientBuilder,
)
    requires
        call_ensures(ModbusTCPClientBuilder::retry_count, (builder, count), returned),
    ensures
        old(returned)@ == (BuilderView { retry_count: Some(count), ..old(builder)@ }),
        *final(builder) == *final(returned),
{
}

/// A client is made for exactly the address, the port and the settings that the builder was told;
/// a missing address is reported before a missing port.
pub proof fn law_build(
    builder: ModbusTCPClientBuilder,
    result: Result<ModbusTCPClient, ModbusTCPError>,
)
    requires
        call_ensures(ModbusTCPClientBuilder::build, (builder,), result),
        builder@.wf(),
    ensures
        builder@.ip is None ==> result matches Err(ModbusTCPError::InvalidIpAddr),
        builder@.ip is Some && builder@.port is None ==> result matches Err(
            ModbusTCPError::InvalidPort,
        ),
        builder@.ip is Some && builder@.port is Some ==> (result matches Ok(client) && {
            &&& client@.socket_addr.ip.dotted() == builder@.ip->Some_0
            &&& client@.socket_addr.port == builder@.port->Some_0
            &&& client@.config.reconnect_timeout is Some <==> builder@.reconnect_timeout is Some
            &&& builder@.reconnect_timeout is Some ==> client@.config.reconnect_timeout->Some_0
                == builder@.reconnect_timeout->Some_0
            &&& client@.config.retry_count == match builder@.retry_count {
                Some(count) => count,
                None => 1,
            }
            &&& client@.config.retry_interval == match builder@.retry_timeout {
                Some(milli_seconds) => milli_seconds,
                None => 100,
            }
            &&& client@.state_rx is None
            &&& client@.cmd_tx is None
            &&& client@.worker_handle is None
            &&& client@.shutdown_tx is None
        }),
{
}

/// The first one to subscribe after a connection gets its receiver, and nobody after that.
pub proof fn law_subscribe(
    client: &mut ModbusTCPClient,
    receiver: Result<mpsc::Receiver<SocketStateChange>, ModbusTCPError>,
)
    requires
        call_ensures(ModbusTCPClient::subscribe, (client,), receiver),
    ensures
        match old(client)@.state_rx {
            Some(state_rx) => receiver matches Ok(got) && got == state_rx,
            None => receiver matches Err(ModbusTCPError::AlreadySubscribed),
        },
        final(client)@.state_rx is None,
        final(client)@.cmd_tx == old(client)@.cmd_tx,
        final(client)@.shutdown_tx == old(client)@.shutdown_tx,
        final(client)@.worker_handle == old(client)@.worker_handle,
        final(client)@.socket_addr == old(client)@.socket_addr,
        final(client)@.config == old(client)@.config,
{
}

/// A connection hands out the client's peer and settings and one end of each of three channels
/// that hold a single message; the client keeps the other ends.
pub proof fn law_connect(client: &mut ModbusTCPClient, setup: WorkerSetup)
    requires
        call_ensures(ModbusTCPClient::connect, (client,), setup),
    ensures
        setup.addr == old(client)@.socket_addr,
        setup.config == old(client)@.config,
        final(client)@.state_rx matches Some(state_rx) && state_channel(setup.state_tx, state_rx)
            == Some(1nat),
        final(client)@.cmd_tx matches Some(cmd_tx) && command_channel(cmd_tx, setup.cmd_rx) == Some(
            1nat,
        ),
        final(client)@.shutdown_tx matches Some(shutdown_tx) && shutdown_channel(
            shutdown_tx,
            setup.shutdown_rx,
        ) == Some(1nat),
        final(client)@.worker_handle == old(client)@.worker_handle,
        final(client)@.socket_addr == old(client)@.socket_addr,
        final(client)@.config == old(client)@.config,
{
}

/// A client keeps the handle that it is given, in place of any other.
pub proof fn law_attach_worker(client: &mut ModbusTCPClient, worker_handle: JoinHandle<()>)
    requires
        call_ensures(ModbusTCPClient::attach_worker, (client, worker_handle), ()),
    ensures
        final(client)@.worker_handle == Some(worker_handle),
        final(client)@.state_rx == old(client)@.state_rx,
        final(client)@.cmd_tx == old(client)@.cmd_tx,
        final(client)@.shutdown_tx == old(client)@.shutdown_tx,
        final(client)@.socket_addr == old(client)@.socket_addr,
        final(client)@.config == old(client)@.config,
{
}

/// A disconnection hands out what stops the worker, keeps none of it, and leaves requests and
/// subscriptions alone.
pub proof fn law_disconnect(client: &mut ModbusTCPClient, teardown: Teardown)
    requires
        call_ensures(ModbusTCPClient::disconnect, (client,), teardown),
    ensures
        teardown.shutdown_tx == old(client)@.shutdown_tx,
        teardown.worker_handle == old(client)@.worker_handle,
        final(client)@.shutdown_tx is None,
        final(client)@.worker_handle is None,
        final(client)@.state_rx == old(client)@.state_rx,
        final(client)@.cmd_tx == old(client)@.cmd_tx,
        final(client)@.socket_addr == old(client)@.socket_addr,
        final(client)@.config == old(client)@.config,
{
}

/// A request goes to the worker of the client with the caller's bytes, and its answer comes out at
/// the other end of the command's own channel. Without a connection there is nowhere to go.
pub proof fn law_send_request(
    client: &ModbusTCPClient,
    msg: Vec<u8>,
    sending: Result<
        (&mpsc::Sender<ModbusCommand>, ModbusCommand, oneshot::Receiver<CommandResult>),
        ModbusTCPError,
    >,
)
    requires
        call_ensures(ModbusTCPClient::send_request, (client, msg), sending),
    ensures
        match client@.cmd_tx {
            Some(cmd_tx) => sending matches Ok((to, command, answer)) && *to == cmd_tx
                && command.packet@ == msg@ && reply_channel(command.reply, answer),
            None => sending matches Err(ModbusTCPError::NotConnected),
        },
{
}

/// An error is shown as its sentence.
pub proof fn law_message(error: ModbusTCPError<String>, text: String)
    requires
        call_ensures(ModbusTCPError::<String>::message, (&error,), text),
    ensures
        text@ == match error {
            ModbusTCPError::InvalidIpAddr => "Invalid Ip address"@,
            ModbusTCPError::InvalidPort => "Invalid Port"@,
            ModbusTCPError::AlreadySubscribed => "Already subscribed"@,
            ModbusTCPError::ConnectionFailed(reason) => "Connection failed: "@ + reason@,
            ModbusTCPError::NotConnected => "Not connected"@,
            ModbusTCPError::ModbusUnitError(text) => text@,
            ModbusTCPError::ModbusClientError(reason) => "Transport error: "@ + reason@,
        },
{
}

/// An error stays the same beside a unit, unless it is a unit's.
pub proof fn law_beside_unit<E>(error: ModbusTCPError, same: Option<ModbusTCPError<E>>)
    requires
        call_ensures(ModbusTCPError::beside_unit::<E>, (error,), same),
    ensures
        match error {
            ModbusTCPError::InvalidIpAddr => same matches Some(ModbusTCPError::InvalidIpAddr),
            ModbusTCPError::InvalidPort => same matches Some(ModbusTCPError::InvalidPort),
            ModbusTCPError::AlreadySubscribed => same matches Some(
                ModbusTCPError::AlreadySubscribed,
            ),
            ModbusTCPError::ConnectionFailed(reason) => same matches Some(
                ModbusTCPError::ConnectionFailed(text),
            ) && text@ == reason@,
            ModbusTCPError::NotConnected => same matches Some(ModbusTCPError::NotConnected),
            ModbusTCPError::ModbusUnitError(_) => same is None,
            ModbusTCPError::ModbusClientError(reason) => same matches Some(
                ModbusTCPError::ModbusClientError(text),
            ) && text@ == reason@,
        },
{
}

/// An attempt begins with its announcement, for the peer that was given.
pub proof fn law_connect_with_retry(addr: SocketAddress, attempt: ConnectAttempt)
    requires
        call_ensures(ConnectAttempt::connect_with_retry, (addr,), attempt),
    ensures
        attempt == (ConnectAttempt { addr, stage: ConnectStage::Announcing }),
{
}

/// An attempt asks for its announcement, for a dial to its peer, or for its report.
pub proof fn law_attempt_action(attempt: ConnectAttempt, action: ConnectAction)
    requires
        call_ensures(ConnectAttempt::action, (attempt,), action),
    ensures
        action == match attempt.stage {
            ConnectStage::Announcing => ConnectAction::Notify(SocketStateChange::Connecting),
            ConnectStage::Dialing => ConnectAction::Connect { addr: attempt.addr },
            ConnectStage::Reporting { connected } => ConnectAction::Notify(
                if connected {
                    SocketStateChange::Connected
                } else {
                    SocketStateChange::Disconnected
                },
            ),
        },
{
}

/// An attempt goes from its announcement to the dial and from the dial to its report, and ends
/// with what the dial gave; it takes no other event.
pub proof fn law_attempt_step(attempt: ConnectAttempt, event: ConnectEvent, step: ConnectStep)
    requires
        call_ensures(ConnectAttempt::step, (attempt, event), step),
    ensures
        match event {
            ConnectEvent::Notified => match attempt.stage {
                ConnectStage::Announcing => step == ConnectStep::Continue(
                    ConnectAttempt { addr: attempt.addr, stage: ConnectStage::Dialing },
                ),
                ConnectStage::Dialing => step is Unexpected,
                ConnectStage::Reporting { connected } => step == (ConnectStep::Finished {
                    connected,
                }),
            },
            ConnectEvent::Dialed { connected } => if attempt.stage is Dialing {
                step == ConnectStep::Continue(
                    ConnectAttempt {
                        addr: attempt.addr,
                        stage: ConnectStage::Reporting { connected },
                    },
                )
            } else {
                step is Unexpected
            },
        },
{
}

/// The first search begins with an attempt.
pub proof fn law_initial_connect(
    addr: SocketAddress,
    reconnect_timeout: Option<u64>,
    link: LinkLoop,
)
    requires
        call_ensures(LinkLoop::initial_connect, (addr, reconnect_timeout), link),
    ensures
        link.addr == addr,
        link.reconnect_timeout == reconnect_timeout,
        link.stage == LinkStage::Attempting(
            ConnectAttempt { addr, stage: ConnectStage::Announcing },
        ),
{
}

/// A search after a loss begins with the pause.
pub proof fn law_reconnect_loop(addr: SocketAddress, timeout: u64, link: LinkLoop)
    requires
        call_ensures(LinkLoop::reconnect_loop, (addr, timeout), link),
    ensures
        link.addr == addr,
        link.reconnect_timeout == Some(timeout),
        link.stage == (LinkStage::Waiting { seconds: timeout }),
{
}

/// A search asks for its pause, or for what its attempt asks for.
pub proof fn law_link_action(link: LinkLoop, action: LinkAction, wanted: ConnectAction)
    requires
        call_ensures(LinkLoop::action, (link,), action),
    ensures
        match link.stage {
            LinkStage::Waiting { seconds } => action == (LinkAction::Sleep { seconds }),
            LinkStage::Attempting(attempt) => call_ensures(
                ConnectAttempt::action,
                (attempt,),
                wanted,
            ) ==> action == LinkAction::Attempt(wanted),
        },
{
}

/// A search is stopped at any point. It goes on with its attempt, ends with a success, pauses after
/// a failure, and makes another attempt at the same peer after the pause; without a reconnect
/// timeout a failure is the end.
pub proof fn law_link_step(link: LinkLoop, event: LinkEvent, step: LinkStep)
    requires
        call_ensures(LinkLoop::step, (link, event), step),
    ensures
        event is Shutdown ==> step is Down,
        event is Slept ==> if link.stage is Waiting {
            step == LinkStep::Continue(
                LinkLoop {
                    addr: link.addr,
                    reconnect_timeout: link.reconnect_timeout,
                    stage: LinkStage::Attempting(
                        ConnectAttempt { addr: link.addr, stage: ConnectStage::Announcing },
                    ),
                },
            )
        } else {
            step is Unexpected
        },
        event is Attempt && link.stage is Waiting ==> step is Unexpected,
        event is Attempt && link.stage is Attempting ==> {
            let attempt = link.stage->Attempting_0;
            match (attempt.stage, event->Attempt_0) {
                (ConnectStage::Announcing, ConnectEvent::Notified) => step == LinkStep::Continue(
                    LinkLoop {
                        addr: link.addr,
                        reconnect_timeout: link.reconnect_timeout,
                        stage: LinkStage::Attempting(
                            ConnectAttempt { addr: attempt.addr, stage: ConnectStage::Dialing },
                        ),
                    },
                ),
                (ConnectStage::Dialing, ConnectEvent::Dialed { connected }) => step
                    == LinkStep::Continue(
                    LinkLoop {
                        addr: link.addr,
                        reconnect_timeout: link.reconnect_timeout,
                        stage: LinkStage::Attempting(
                            ConnectAttempt {
                                addr: attempt.addr,
                                stage: ConnectStage::Reporting { connected },
                            },
                        ),
                    },
                ),
                (ConnectStage::Reporting { connected: true }, ConnectEvent::Notified) => step is Up,
                (ConnectStage::Reporting { connected: false }, ConnectEvent::Notified) => {
                    match link.reconnect_timeout {
                        Some(seconds) => step == LinkStep::Continue(
                            LinkLoop {
                                addr: link.addr,
                                reconnect_timeout: Some(seconds),
                                stage: LinkStage::Waiting { seconds },
                            },
                        ),
                        None => step is Down,
                    }
                },
                _ => step is Unexpected,
            }
        },
{
}

/// A worker starts by announcing its first attempt, without a connection.
pub proof fn law_worker_task(
    addr: SocketAddress,
    config: WorkerConfig,
    worker: Worker,
    action: WorkerAction,
    holds: bool,
)
    requires
        call_ensures(Worker::worker_task, (addr, config), (worker, action)),
        call_ensures(Worker::holds_stream, (&worker,), holds),
    ensures
        action matches WorkerAction::Link(
            LinkAction::Attempt(ConnectAction::Notify(SocketStateChange::Connecting)),
        ),
        !holds,
        worker@.wf(),
        worker@.addr == addr,
        worker@.config == config,
{
}

/// A worker says that it holds a stream exactly if it neither looks for one nor has ended.
pub proof fn law_holds_stream(worker: Worker, holds: bool)
    requires
        call_ensures(Worker::holds_stream, (&worker,), holds),
        worker@.wf(),
    ensures
        holds == worker@.stream,
        holds <==> !(worker@.phase is Linking) && !(worker@.phase is Stopped),
{
}

/// An idle worker checks the connection at every tick.
pub proof fn law_step_tick(worker: &mut Worker, action: WorkerAction)
    requires
        call_ensures(Worker::step, (worker, WorkerEvent::Woke(Wakeup::Tick)), action),
        old(worker)@.wf(),
        old(worker)@.phase is Idle,
    ensures
        action matches WorkerAction::Probe { timeout_millis } && timeout_millis == 100,
        final(worker)@ == (WorkerView { phase: PhaseView::Probing, ..old(worker)@ }),
{
}

/// A check leaves a connection alone unless the peer has closed its side.
pub proof fn law_step_probed(worker: &mut Worker, probe: SocketProbe, action: WorkerAction)
    requires
        call_ensures(Worker::step, (worker, WorkerEvent::Probed(probe)), action),
        old(worker)@.wf(),
        old(worker)@.phase is Probing,
    ensures
        probe != (SocketProbe::Ready { read_closed: true }) ==> {
            &&& action matches WorkerAction::Select { check_millis } && check_millis == 5000
            &&& final(worker)@ == (WorkerView { phase: PhaseView::Idle, ..old(worker)@ })
            &&& final(worker)@.stream
        },
        probe == (SocketProbe::Ready { read_closed: true }) ==> {
            &&& action matches WorkerAction::Notify(SocketStateChange::Disconnected)
            &&& final(worker)@ == (WorkerView { phase: PhaseView::Losing, ..old(worker)@ })
        },
{
}

/// A worker that has told of a loss lets go of the connection, and pauses before it looks for a new
/// one, or ends.
pub proof fn law_step_lost(worker: &mut Worker, action: WorkerAction)
    requires
        call_ensures(Worker::step, (worker, WorkerEvent::Delivered), action),
        old(worker)@.wf(),
        old(worker)@.phase is Losing,
    ensures
        !final(worker)@.stream,
        final(worker)@.wf(),
        match old(worker)@.config.reconnect_timeout {
            Some(pause) => {
                &&& action matches WorkerAction::Link(LinkAction::Sleep { seconds }) && seconds
                    == pause
                &&& final(worker)@.phase == PhaseView::Linking(
                    LinkLoop {
                        addr: old(worker)@.addr,
                        reconnect_timeout: Some(pause),
                        stage: LinkStage::Waiting { seconds: pause },
                    },
                )
            },
            None => action is Stop && final(worker)@.phase is Stopped,
        },
{
}

/// An idle worker writes the bytes of a command that it gets.
pub proof fn law_step_command(worker: &mut Worker, command: ModbusCommand, action: WorkerAction)
    requires
        call_ensures(Worker::step, (worker, WorkerEvent::Woke(Wakeup::Command(command))), action),
        old(worker)@.wf(),
        old(worker)@.phase is Idle,
    ensures
        action matches WorkerAction::Write { packet, timeout_millis } && packet@ == command.packet@
            && timeout_millis == 1000,
        final(worker)@.phase matches PhaseView::Writing(attempt, reply) && attempt.packet
            == command.packet@ && attempt.number == 0 && attempt.retry_count
            == old(worker)@.config.retry_count && reply == command.reply,
        final(worker)@.wf(),
{
}

/// A worker whose packet went out reads the response. One whose write failed writes the same bytes
/// again while repetitions are left, and then answers with the failure.
pub proof fn law_step_written(worker: &mut Worker, outcome: WriteOutcome, action: WorkerAction)
    requires
        call_ensures(Worker::step, (worker, WorkerEvent::Written(outcome)), action),
        old(worker)@.wf(),
        old(worker)@.phase is Writing,
    ensures
        ({
            let attempt = old(worker)@.phase->Writing_0;
            let reply = old(worker)@.phase->Writing_1;
            &&& outcome is Written ==> {
                &&& action matches WorkerAction::Read { capacity, timeout_millis } && capacity
                    == 1024 && timeout_millis == old(worker)@.config.retry_interval
                &&& final(worker)@.phase == PhaseView::Reading(attempt, reply)
            }
            &&& !(outcome is Written) && attempt.number < attempt.retry_count ==> {
                &&& action matches WorkerAction::Write { packet, timeout_millis } && packet@
                    == attempt.packet && timeout_millis == 1000
                &&& final(worker)@.phase matches PhaseView::Writing(again, to) && again.packet
                    == attempt.packet && again.number == attempt.number + 1 && again.retry_count
                    == attempt.retry_count && to == reply
            }
            &&& !(outcome is Written) && attempt.number == attempt.retry_count ==> {
                &&& action matches WorkerAction::Reply {
                    reply: to,
                    result: Err(ModbusTCPError::ConnectionFailed(reason)),
                } && to == reply && reason@ == match outcome {
                    WriteOutcome::Failed(text) => text@,
                    _ => "Write timeout"@,
                }
                &&& final(worker)@.phase is Replying
            }
        }),
        final(worker)@.stream,
        final(worker)@.wf(),
{
}

/// A worker that read something hands all the bytes that came, and no others, to the command's own
/// sender. A peer that is gone is answered as such. A read that failed is followed by another write
/// of the same bytes while repetitions are left, and is the answer after the last one.
pub proof fn law_step_received(worker: &mut Worker, outcome: ReadOutcome, action: WorkerAction)
    requires
        call_ensures(Worker::step, (worker, WorkerEvent::Received(outcome)), action),
        old(worker)@.wf(),
        old(worker)@.phase is Reading,
    ensures
        ({
            let attempt = old(worker)@.phase->Reading_0;
            let reply = old(worker)@.phase->Reading_1;
            match outcome {
                ReadOutcome::Received { buffer, count } => {
                    &&& final(worker)@.phase is Replying
                    &&& 0 < count <= buffer@.len() ==> (action matches WorkerAction::Reply {
                        reply: to,
                        result: Ok(response),
                    } && to == reply && response@.len() == count && forall|i: int|
                        0 <= i < count ==> #[trigger] response@[i] == buffer@[i])
                    &&& count > buffer@.len() ==> (action matches WorkerAction::Reply {
                        reply: to,
                        result: Ok(response),
                    } && to == reply && response@ == buffer@)
                    &&& count == 0 ==> (action matches WorkerAction::Reply {
                        reply: to,
                        result: Err(ModbusTCPError::ConnectionFailed(reason)),
                    } && to == reply && reason@ == "Connection closed"@)
                },
                _ => {
                    &&& attempt.number < attempt.retry_count ==> {
                        &&& action matches WorkerAction::Write { packet, timeout_millis } && packet@
                            == attempt.packet && timeout_millis == 1000
                        &&& final(worker)@.phase matches PhaseView::Writing(again, to)
                            && again.packet == attempt.packet && again.number == attempt.number + 1
                            && again.retry_count == attempt.retry_count && to == reply
                    }
                    &&& attempt.number == attempt.retry_count ==> {
                        &&& action matches WorkerAction::Reply {
                            reply: to,
                            result: Err(ModbusTCPError::ConnectionFailed(reason)),
                        } && to == reply && reason@ == match outcome {
                            ReadOutcome::Failed(text) => text@,
                            _ => "Timeout"@,
                        }
                        &&& final(worker)@.phase is Replying
                    }
                },
            }
        }),
        final(worker)@.stream,
        final(worker)@.wf(),
{
}

/// A worker that has handed over an answer is idle again.
pub proof fn law_step_replied(worker: &mut Worker, action: WorkerAction)
    requires
        call_ensures(Worker::step, (worker, WorkerEvent::Delivered), action),
        old(worker)@.wf(),
        old(worker)@.phase is Replying,
    ensures
        action matches WorkerAction::Select { check_millis } && check_millis == 5000,
        final(worker)@ == (WorkerView { phase: PhaseView::Idle, ..old(worker)@ }),
        final(worker)@.stream,
{
}

/// A worker that is asked to stop ends, whether it is idle or looks for a connection.
pub proof fn law_step_shutdown(worker: &mut Worker, event: WorkerEvent, action: WorkerAction)
    requires
        call_ensures(Worker::step, (worker, event), action),
        match event {
            WorkerEvent::Woke(Wakeup::Shutdown) => old(worker)@.phase is Idle,
            WorkerEvent::Link(LinkEvent::Shutdown) => old(worker)@.phase is Linking,
            _ => false,
        },
    ensures
        action is Stop,
        final(worker)@.phase is Stopped,
        !final(worker)@.stream,
{
}

/// A worker that looks for a connection does what its search asks for, is idle with a connection
/// once the search has found one, and ends if the search has given up.
pub proof fn law_step_link(
    worker: &mut Worker,
    link: LinkLoop,
    event: LinkEvent,
    step: LinkStep,
    wanted: LinkAction,
    action: WorkerAction,
)
    requires
        call_ensures(Worker::step, (worker, WorkerEvent::Link(event)), action),
        old(worker)@.wf(),
        old(worker)@.phase == PhaseView::Linking(link),
        call_ensures(LinkLoop::step, (link, event), step),
    ensures
        match step {
            LinkStep::Continue(next) => {
                &&& final(worker)@ == (WorkerView {
                    phase: PhaseView::Linking(next),
                    ..old(worker)@
                })
                &&& call_ensures(LinkLoop::action, (next,), wanted) ==> (action matches
                    WorkerAction::Link(asked) && asked == wanted)
            },
            LinkStep::Up => {
                &&& action matches WorkerAction::Select { check_millis } && check_millis == 5000
                &&& final(worker)@ == (WorkerView {
                    stream: true,
                    should_reconnect: false,
                    phase: PhaseView::Idle,
                    ..old(worker)@
                })
            },
            LinkStep::Down => {
                &&& action is Stop
                &&& final(worker)@.phase is Stopped
                &&& !final(worker)@.stream
            },
            LinkStep::Unexpected => action is Unexpected && final(worker)@ == old(worker)@,
        },
{
}

/// An event that a worker was not waiting for is handed back, and the worker stays as it is.
pub proof fn law_step_unexpected(worker: &mut Worker, event: WorkerEvent, action: WorkerAction)
    requires
        call_ensures(Worker::step, (worker, event), action),
        !can_happen(old(worker)@.phase, event@),
    ensures
        action matches WorkerAction::Unexpected(back) && back@ == event@,
        final(worker)@ == old(worker)@,
{
}

/// A transaction begins by having the unit build a request of its kind.
pub proof fn law_begun<E>(transaction: Transaction, action: TransactionAction<E>)
    ensures
        call_ensures(Transaction::send_read_request::<E>, (), (transaction, action)) ==> {
            &&& transaction == (Transaction { direction: Direction::Read, stage: Stage::Creating })
            &&& action matches TransactionAction::Create(Direction::Read)
        },
        call_ensures(Transaction::send_write_request::<E>, (), (transaction, action)) ==> {
            &&& transaction == (Transaction { direction: Direction::Write, stage: Stage::Creating })
            &&& action matches TransactionAction::Create(Direction::Write)
        },
{
}

/// A transaction sends the request as the unit built it, has the unit take in the response as it
/// came, and ends with the unit's values after a read and with success after a write. The first
/// failure ends it too and is what the caller gets, a unit's error as the unit reported it.
pub proof fn law_transaction_step<E>(
    transaction: &mut Transaction,
    event: TransactionEvent<E>,
    action: TransactionAction<E>,
)
    requires
        call_ensures(Transaction::step::<E>, (transaction, event), action),
    ensures
        final(transaction).direction == old(transaction).direction,
        match (old(transaction).stage, event) {
            (Stage::Creating, TransactionEvent::Created(Ok(msg))) => {
                &&& final(transaction).stage is Sending
                &&& action matches TransactionAction::Send(bytes) && bytes@ == msg@
            },
            (Stage::Creating, TransactionEvent::Created(Err(error))) => {
                &&& final(transaction).stage is Finished
                &&& action matches TransactionAction::Finish(
                    Err(ModbusTCPError::ModbusUnitError(reported)),
                ) && reported == error
            },
            (Stage::Sending, TransactionEvent::Answered(Ok(response))) => {
                &&& final(transaction).stage is Parsing
                &&& action matches TransactionAction::Parse(bytes) && bytes@ == response@
            },
            (Stage::Sending, TransactionEvent::Answered(Err(error))) => {
                if error is ModbusUnitError {
                    &&& action is Unexpected
                    &&& *final(transaction) == *old(transaction)
                } else {
                    &&& final(transaction).stage is Finished
                    &&& action matches TransactionAction::Finish(Err(told))
                    &&& same_error(error@, told@)
                }
            },
            (Stage::Parsing, TransactionEvent::Parsed(Ok(()))) => {
                &&& old(transaction).direction is Read ==> final(transaction).stage is Collecting
                    && action is Collect
                &&& old(transaction).direction is Write ==> final(transaction).stage is Finished && (
                action matches TransactionAction::Finish(Ok(Outcome::Written)))
            },
            (Stage::Parsing, TransactionEvent::Parsed(Err(error))) => {
                &&& final(transaction).stage is Finished
                &&& action matches TransactionAction::Finish(
                    Err(ModbusTCPError::ModbusUnitError(reported)),
                ) && reported == error
            },
            (Stage::Collecting, TransactionEvent::Collected(values)) => {
                &&& final(transaction).stage is Finished
                &&& action matches TransactionAction::Finish(Ok(Outcome::Values(got))) && got@
                    == values@
            },
            _ => {
                &&& action matches TransactionAction::Unexpected(back) && back@ == event@
                &&& *final(transaction) == *old(transaction)
            },
        },
{
}

} // verus!
