//! What a worker does next, told by what it was doing and what happened.
//!
//! The laws hold of every worker that can come about, whatever its configuration.

use crate::command::{
    result_view, AttemptView, CommandResult, ReadOutcome, ReadOutcomeView, WriteOutcome,
    WriteOutcomeView,
};
use crate::error::ErrorView;
use crate::ipv4::SocketAddress;
use crate::link::{
    ConnectAction, ConnectAttempt, ConnectEvent, ConnectStage, LinkAction, LinkEvent, LinkLoop,
    LinkStage, SocketStateChange,
};
use crate::worker::{
    ActionView, CommandView, EventView, ModbusCommand, PhaseView, ReplySender, SocketProbe, Wakeup,
    WorkerAction, WorkerConfig, WorkerEvent, WorkerView,
};
use crate::worker_laws::{asked, law_stream_held, life, run};
use vstd::prelude::*;

verus! {

/// A connection is given up only if the socket says that the peer has closed its side: neither an
/// open socket, nor an error, nor silence is a reason.
pub proof fn law_only_a_closed_peer_is_dead(probe: SocketProbe)
    ensures
        probe.alive() <==> match probe {
            SocketProbe::Ready { read_closed } => !read_closed,
            SocketProbe::TimedOut => true,
            SocketProbe::Failed => true,
        },
{
}

/// Whenever a check is due, a worker that waits for something to do checks the connection.
pub proof fn law_every_tick_checks_the_connection(worker: WorkerView)
    requires
        worker.wf(),
        worker.phase is Idle,
    ensures
        worker.after(EventView::Tick) == (
            WorkerView { phase: PhaseView::Probing, ..worker },
            ActionView::Probe { timeout_millis: 100 },
        ),
{
}

/// A check that does not find the peer gone leaves the connection alone: the worker waits for
/// something to do, with everything as it was, and tells nobody anything.
pub proof fn law_live_connection_is_kept(worker: WorkerView, probe: SocketProbe)
    requires
        worker.wf(),
        worker.phase is Probing,
        probe != (SocketProbe::Ready { read_closed: true }),
    ensures
        worker.after(EventView::Probed(probe)) == (
            WorkerView { phase: PhaseView::Idle, ..worker },
            ActionView::Select { check_millis: 5000 },
        ),
        worker.after(EventView::Probed(probe)).0.stream,
{
}

/// A check that finds the peer gone has the subscribers told so first.
pub proof fn law_closed_connection_is_announced(worker: WorkerView)
    requires
        worker.wf(),
        worker.phase is Probing,
    ensures
        worker.after(EventView::Probed(SocketProbe::Ready { read_closed: true })) == (
            WorkerView { phase: PhaseView::Losing, ..worker },
            ActionView::Notify(SocketStateChange::Disconnected),
        ),
{
}

/// Once the subscribers know, the connection is let go. With a reconnect timeout the worker
/// pauses for as long as it says before it looks for a new one at the same peer; without one it
/// ends.
pub proof fn law_lost_connection_is_sought_or_the_end(worker: WorkerView)
    requires
        worker.wf(),
        worker.phase is Losing,
    ensures
        match worker.config.reconnect_timeout {
            Some(seconds) => worker.after(EventView::Delivered) == (
                WorkerView {
                    addr: worker.addr,
                    config: worker.config,
                    stream: false,
                    should_reconnect: true,
                    phase: PhaseView::Linking(
                        LinkLoop {
                            addr: worker.addr,
                            reconnect_timeout: Some(seconds),
                            stage: LinkStage::Waiting { seconds },
                        },
                    ),
                },
                ActionView::Link(LinkAction::Sleep { seconds }),
            ),
            None => worker.after(EventView::Delivered) == (
                WorkerView { stream: false, phase: PhaseView::Stopped, ..worker },
                ActionView::Stop,
            ),
        },
{
}

/// A whole check of a connection whose peer is still there changes nothing at all: between two
/// waits the worker asks for the check and for nothing else.
pub proof fn law_check_of_a_live_connection_changes_nothing(worker: WorkerView, probe: SocketProbe)
    requires
        worker.wf(),
        worker.phase is Idle,
        probe != (SocketProbe::Ready { read_closed: true }),
    ensures
        run(worker, seq![EventView::Tick, EventView::Probed(probe)]) == worker,
        asked(worker, seq![EventView::Tick, EventView::Probed(probe)]) == seq![
            ActionView::Probe { timeout_millis: 100 },
            ActionView::Select { check_millis: 5000 },
        ],
{
    let events = seq![EventView::Tick, EventView::Probed(probe)];
    let first = seq![EventView::Tick];
    assert(events.drop_last() =~= first);
    assert(first.drop_last() =~= Seq::empty());
    reveal_with_fuel(run, 3);
    reveal_with_fuel(asked, 3);
}

/// With a reconnect timeout a worker gets over the loss of its connection: it tells the
/// subscribers, pauses, dials, and, if that succeeds, is where it was before the loss.
pub proof fn law_loss_is_got_over(worker: WorkerView, seconds: u64)
    requires
        worker.wf(),
        worker.phase is Idle,
        worker.config.reconnect_timeout == Some(seconds),
    ensures
        ({
            let notified = EventView::Link(LinkEvent::Attempt(ConnectEvent::Notified));
            let events = seq![
                EventView::Tick,
                EventView::Probed(SocketProbe::Ready { read_closed: true }),
                EventView::Delivered,
                EventView::Link(LinkEvent::Slept),
                notified,
                EventView::Link(LinkEvent::Attempt(ConnectEvent::Dialed { connected: true })),
                notified,
            ];
            &&& run(worker, events) == worker
            &&& asked(worker, events) == seq![
                ActionView::Probe { timeout_millis: 100 },
                ActionView::Notify(SocketStateChange::Disconnected),
                ActionView::Link(LinkAction::Sleep { seconds }),
                ActionView::Link(
                    LinkAction::Attempt(ConnectAction::Notify(SocketStateChange::Connecting)),
                ),
                ActionView::Link(LinkAction::Attempt(ConnectAction::Connect { addr: worker.addr })),
                ActionView::Link(
                    LinkAction::Attempt(ConnectAction::Notify(SocketStateChange::Connected)),
                ),
                ActionView::Select { check_millis: 5000 },
            ]
        }),
{
    let notified = EventView::Link(LinkEvent::Attempt(ConnectEvent::Notified));
    let dialed = EventView::Link(LinkEvent::Attempt(ConnectEvent::Dialed { connected: true }));
    let e1 = Seq::<EventView>::empty().push(EventView::Tick);
    let e2 = e1.push(EventView::Probed(SocketProbe::Ready { read_closed: true }));
    let e3 = e2.push(EventView::Delivered);
    let e4 = e3.push(EventView::Link(LinkEvent::Slept));
    let e5 = e4.push(notified);
    let e6 = e5.push(dialed);
    let e7 = e6.push(notified);
    assert(e1.drop_last() =~= Seq::empty());
    assert(e2.drop_last() =~= e1);
    assert(e3.drop_last() =~= e2);
    assert(e4.drop_last() =~= e3);
    assert(e5.drop_last() =~= e4);
    assert(e6.drop_last() =~= e5);
    assert(e7.drop_last() =~= e6);
    reveal_with_fuel(run, 8);
    reveal_with_fuel(asked, 8);
    assert(run(worker, e1).phase == PhaseView::Probing);
    assert(run(worker, e2).phase == PhaseView::Losing);
    assert(e7 =~= seq![
        EventView::Tick,
        EventView::Probed(SocketProbe::Ready { read_closed: true }),
        EventView::Delivered,
        EventView::Link(LinkEvent::Slept),
        notified,
        dialed,
        notified,
    ]);
}

/// Over its whole life a worker with a connection tells subscribers only one thing, that the
/// connection is gone, and only right after a check found that the peer has closed its side.
pub proof fn law_loss_is_announced_only_after_a_check(
    addr: SocketAddress,
    config: WorkerConfig,
    events: Seq<EventView>,
)
    ensures
        life(addr, config, events).last() is Notify ==> {
            &&& events.len() > 0
            &&& events.last() == EventView::Probed(SocketProbe::Ready { read_closed: true })
            &&& life(addr, config, events).last() == ActionView::Notify(
                SocketStateChange::Disconnected,
            )
        },
{
    if events.len() > 0 {
        let before = events.drop_last();
        law_stream_held(addr, config, before);
        assert(life(addr, config, events).last() == run(
            WorkerView::start(addr, config),
            before,
        ).after(events.last()).1);
    }
}

/// Once a worker has a connection, it keeps it until a check finds the peer gone or the client
/// wants the worker to stop: whatever else happens, it still has it afterwards.
pub proof fn law_connection_is_kept_until_lost(worker: WorkerView, event: EventView)
    requires
        worker.wf(),
        worker.stream,
        !worker.after(event).0.stream,
    ensures
        worker.phase is Losing && event == EventView::Delivered || worker.phase is Idle && event
            == EventView::Shutdown,
{
}

/// A worker that starts looks for its first connection: it tells the subscribers, and has none
/// yet.
pub proof fn law_worker_starts_with_an_attempt(addr: SocketAddress, config: WorkerConfig)
    ensures
        WorkerView::start(addr, config) == (WorkerView {
            addr,
            config,
            stream: false,
            should_reconnect: false,
            phase: PhaseView::Linking(
                LinkLoop {
                    addr,
                    reconnect_timeout: config.reconnect_timeout,
                    stage: LinkStage::Attempting(
                        ConnectAttempt { addr, stage: ConnectStage::Announcing },
                    ),
                },
            ),
        }),
        LinkLoop::attempting(addr, config.reconnect_timeout).pending() == LinkAction::Attempt(
            ConnectAction::Notify(SocketStateChange::Connecting),
        ),
{
}

/// A worker that looks for a connection goes step by step: it announces the attempt, dials its
/// peer, says how that went, and then has a connection and waits for something to do, or pauses
/// before the next attempt, or, without a reconnect timeout, ends.
pub proof fn law_search_step_by_step(worker: WorkerView, link: LinkLoop, connected: bool)
    requires
        worker.wf(),
        worker.phase == PhaseView::Linking(link),
    ensures
        ({
            let notified = EventView::Link(LinkEvent::Attempt(ConnectEvent::Notified));
            let dialed = EventView::Link(LinkEvent::Attempt(ConnectEvent::Dialed { connected }));
            let attempt = |stage: ConnectStage|
                WorkerView {
                    phase: PhaseView::Linking(
                        LinkLoop {
                            addr: worker.addr,
                            reconnect_timeout: worker.config.reconnect_timeout,
                            stage: LinkStage::Attempting(ConnectAttempt { addr: worker.addr, stage }),
                        },
                    ),
                    ..worker
                };
            match link.stage {
                LinkStage::Waiting { .. } => worker.after(EventView::Link(LinkEvent::Slept)) == (
                    attempt(ConnectStage::Announcing),
                    ActionView::Link(
                        LinkAction::Attempt(ConnectAction::Notify(SocketStateChange::Connecting)),
                    ),
                ),
                LinkStage::Attempting(now) => match now.stage {
                    ConnectStage::Announcing => worker.after(notified) == (
                        attempt(ConnectStage::Dialing),
                        ActionView::Link(
                            LinkAction::Attempt(ConnectAction::Connect { addr: worker.addr }),
                        ),
                    ),
                    ConnectStage::Dialing => worker.after(dialed) == (
                        attempt(ConnectStage::Reporting { connected }),
                        ActionView::Link(
                            LinkAction::Attempt(
                                ConnectAction::Notify(
                                    if connected {
                                        SocketStateChange::Connected
                                    } else {
                                        SocketStateChange::Disconnected
                                    },
                                ),
                            ),
                        ),
                    ),
                    ConnectStage::Reporting { connected: true } => worker.after(notified) == (
                        WorkerView {
                            stream: true,
                            should_reconnect: false,
                            phase: PhaseView::Idle,
                            ..worker
                        },
                        ActionView::Select { check_millis: 5000 },
                    ),
                    ConnectStage::Reporting { connected: false } => {
                        match worker.config.reconnect_timeout {
                            Some(seconds) => worker.after(notified) == (
                                WorkerView {
                                    phase: PhaseView::Linking(
                                        LinkLoop {
                                            addr: worker.addr,
                                            reconnect_timeout: Some(seconds),
                                            stage: LinkStage::Waiting { seconds },
                                        },
                                    ),
                                    ..worker
                                },
                                ActionView::Link(LinkAction::Sleep { seconds }),
                            ),
                            None => worker.after(notified) == (
                                WorkerView { stream: false, phase: PhaseView::Stopped, ..worker },
                                ActionView::Stop,
                            ),
                        }
                    },
                },
            }
        }),
{
}

/// The wish to stop ends a worker at once, while it looks for a connection and while it waits for
/// something to do, and the connection goes with it.
pub proof fn law_stopping_lets_go_of_the_connection(worker: WorkerView)
    ensures
        worker.phase is Linking ==> worker.after(EventView::Link(LinkEvent::Shutdown)) == (
            WorkerView { stream: false, phase: PhaseView::Stopped, ..worker },
            ActionView::Stop,
        ),
        worker.phase is Idle ==> worker.after(EventView::Shutdown) == (
            WorkerView { stream: false, phase: PhaseView::Stopped, ..worker },
            ActionView::Stop,
        ),
{
}

/// A worker that waits for something to do and gets a command writes the command's packet, with
/// as many repetitions as configured to come.
pub proof fn law_command_is_written(worker: WorkerView, command: CommandView)
    requires
        worker.wf(),
        worker.phase is Idle,
    ensures
        worker.after(EventView::Command(command)) == (
            WorkerView {
                phase: PhaseView::Writing(
                    AttemptView {
                        packet: command.packet,
                        retry_count: worker.config.retry_count,
                        number: 0,
                    },
                    command.reply,
                ),
                ..worker
            },
            ActionView::Write { packet: command.packet, timeout_millis: 1000 },
        ),
{
}

/// Once the packet is out, the worker reads the response, for as long as configured.
pub proof fn law_written_command_is_read(
    worker: WorkerView,
    attempt: AttemptView,
    reply: ReplySender,
)
    requires
        worker.phase == PhaseView::Writing(attempt, reply),
    ensures
        worker.after(EventView::Written(WriteOutcomeView::Written)) == (
            WorkerView { phase: PhaseView::Reading(attempt, reply), ..worker },
            ActionView::Read {
                capacity: 1024,
                timeout_millis: worker.config.retry_interval,
            },
        ),
{
}

/// The event tells of a failed write or a failed read that `reason` gives account of.
pub open spec fn fails_for(event: EventView, reason: Seq<char>) -> bool {
    match event {
        EventView::Written(WriteOutcomeView::Failed(text)) => reason == text,
        EventView::Written(WriteOutcomeView::TimedOut) => reason == "Write timeout"@,
        EventView::Received(ReadOutcomeView::Failed(text)) => reason == text,
        EventView::Received(ReadOutcomeView::TimedOut) => reason == "Timeout"@,
        _ => false,
    }
}

/// A write or a read that fails has the worker write the same packet again while repetitions are
/// left. After the last one the command is answered with the failure, and the connection is kept.
pub proof fn law_failed_command_is_repeated_or_answered(
    worker: WorkerView,
    attempt: AttemptView,
    reply: ReplySender,
    event: EventView,
    reason: Seq<char>,
)
    requires
        worker.wf(),
        worker.phase == PhaseView::Writing(attempt, reply) && event is Written || worker.phase
            == PhaseView::Reading(attempt, reply) && event is Received,
        fails_for(event, reason),
    ensures
        attempt.number < worker.config.retry_count ==> worker.after(event) == (
            WorkerView {
                phase: PhaseView::Writing(
                    AttemptView {
                        packet: attempt.packet,
                        retry_count: attempt.retry_count,
                        number: (attempt.number + 1) as usize,
                    },
                    reply,
                ),
                ..worker
            },
            ActionView::Write { packet: attempt.packet, timeout_millis: 1000 },
        ),
        attempt.number >= worker.config.retry_count ==> worker.after(event) == (
            WorkerView { phase: PhaseView::Replying, ..worker },
            ActionView::Reply { reply, result: Err(ErrorView::ConnectionFailed(reason)) },
        ),
{
}

/// A response that came is handed to the command's own sender, every byte of it and in order,
/// whichever try it was. A peer that is gone is answered as such, and no further try is made.
pub proof fn law_response_is_handed_over(
    worker: WorkerView,
    attempt: AttemptView,
    reply: ReplySender,
    buffer: Seq<u8>,
    count: usize,
)
    requires
        worker.phase == PhaseView::Reading(attempt, reply),
    ensures
        ({
            let came = if count <= buffer.len() {
                count as int
            } else {
                buffer.len() as int
            };
            let (next, action) = worker.after(
                EventView::Received(ReadOutcomeView::Received { buffer, count }),
            );
            &&& next == WorkerView { phase: PhaseView::Replying, ..worker }
            &&& count == 0 ==> action == (ActionView::Reply {
                reply,
                result: Err(ErrorView::ConnectionFailed("Connection closed"@)),
            })
            &&& count > 0 ==> {
                &&& action is Reply
                &&& action->reply == reply
                &&& action->result is Ok
                &&& action->result->Ok_0.len() == came
                &&& forall|i: int|
                    0 <= i < came ==> #[trigger] action->result->Ok_0[i] == buffer[i]
            }
        }),
{
}

/// Once the answer is handed over, the worker waits for something to do, with its connection.
pub proof fn law_answered_command_leaves_the_worker_idle(worker: WorkerView)
    requires
        worker.wf(),
        worker.phase is Replying,
    ensures
        worker.after(EventView::Delivered) == (
            WorkerView { phase: PhaseView::Idle, ..worker },
            ActionView::Select { check_millis: 5000 },
        ),
        worker.stream,
{
}

/// The event can happen while a worker is busy in this way.
pub open spec fn can_happen(phase: PhaseView, event: EventView) -> bool {
    match phase {
        PhaseView::Linking(link) => match (link.stage, event) {
            (_, EventView::Link(LinkEvent::Shutdown)) => true,
            (LinkStage::Waiting { .. }, EventView::Link(LinkEvent::Slept)) => true,
            (
                LinkStage::Attempting(attempt),
                EventView::Link(LinkEvent::Attempt(ConnectEvent::Notified)),
            ) => !(attempt.stage is Dialing),
            (
                LinkStage::Attempting(attempt),
                EventView::Link(LinkEvent::Attempt(ConnectEvent::Dialed { .. })),
            ) => attempt.stage is Dialing,
            _ => false,
        },
        PhaseView::Idle => event is Command || event is Tick || event is Shutdown,
        PhaseView::Writing(_, _) => event is Written,
        PhaseView::Reading(_, _) => event is Received,
        PhaseView::Replying | PhaseView::Losing => event is Delivered,
        PhaseView::Probing => event is Probed,
        PhaseView::Stopped => false,
    }
}

/// What can happen is acted on, and what cannot is handed back, with the worker as it was.
pub proof fn law_what_can_happen_is_acted_on(worker: WorkerView, event: EventView)
    ensures
        can_happen(worker.phase, event) ==> !(worker.after(event).1 is Unexpected),
        !can_happen(worker.phase, event) ==> worker.after(event) == (
            worker,
            ActionView::Unexpected(event),
        ),
{
}

/// What happened is taken as it is.
pub proof fn law_events_are_taken_as_they_are(
    event: LinkEvent,
    command: ModbusCommand,
    written: WriteOutcome,
    received: ReadOutcome,
    probe: SocketProbe,
)
    ensures
        WorkerEvent::Link(event)@ == EventView::Link(event),
        WorkerEvent::Woke(Wakeup::Command(command))@ == EventView::Command(
            CommandView { packet: command.packet@, reply: command.reply },
        ),
        WorkerEvent::Woke(Wakeup::Tick)@ == EventView::Tick,
        WorkerEvent::Woke(Wakeup::Shutdown)@ == EventView::Shutdown,
        WorkerEvent::Written(written)@ == EventView::Written(written@),
        WorkerEvent::Received(received)@ == EventView::Received(received@),
        WorkerEvent::Probed(probe)@ == EventView::Probed(probe),
        WorkerEvent::Delivered@ == EventView::Delivered,
{
}

/// What is asked for is meant as it is.
pub proof fn law_actions_are_meant_as_they_are(
    action: LinkAction,
    packet: Vec<u8>,
    reply: ReplySender,
    result: CommandResult,
    change: SocketStateChange,
    event: WorkerEvent,
    capacity: usize,
    millis: u64,
)
    ensures
        WorkerAction::Link(action)@ == ActionView::Link(action),
        (WorkerAction::Select { check_millis: millis })@ == (ActionView::Select {
            check_millis: millis,
        }),
        (WorkerAction::Write { packet, timeout_millis: millis })@ == (ActionView::Write {
            packet: packet@,
            timeout_millis: millis,
        }),
        (WorkerAction::Read { capacity, timeout_millis: millis })@ == (ActionView::Read {
            capacity,
            timeout_millis: millis,
        }),
        (WorkerAction::Reply { reply, result })@ == (ActionView::Reply {
            reply,
            result: result_view(result),
        }),
        (WorkerAction::Probe { timeout_millis: millis })@ == (ActionView::Probe {
            timeout_millis: millis,
        }),
        WorkerAction::Notify(change)@ == ActionView::Notify(change),
        WorkerAction::Stop@ == ActionView::Stop,
        WorkerAction::Unexpected(event)@ == ActionView::Unexpected(event@),
{
}

} // verus!
