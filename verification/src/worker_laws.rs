//! What holds of a worker over its whole life, whatever events come its way.

use crate::command::{
    decides, first_bytes, AttemptView, ReadOutcomeView, TryView, RESPONSE_CAPACITY,
    WRITE_TIMEOUT_MILLIS,
};
use crate::error::ErrorView;
use crate::ipv4::SocketAddress;
use crate::link::{
    ConnectAction, ConnectAttempt, ConnectEvent, ConnectStage, LinkAction, LinkEvent, LinkLoop,
    LinkStage, SocketStateChange,
};
use crate::worker::{
    ActionView, CommandView, EventView, PhaseView, ReplySender, SocketProbe, WorkerConfig,
    WorkerView, CHECK_INTERVAL_MILLIS, CHECK_TIMEOUT_MILLIS,
};
use vstd::prelude::*;

verus! {

/// Where a worker stands after `events`.
pub open spec fn run(worker: WorkerView, events: Seq<EventView>) -> WorkerView
    decreases events.len(),
{
    if events.len() == 0 {
        worker
    } else {
        run(worker, events.drop_last()).after(events.last()).0
    }
}

/// What a worker asked for in response to each of `events`.
pub open spec fn asked(worker: WorkerView, events: Seq<EventView>) -> Seq<ActionView>
    decreases events.len(),
{
    if events.len() == 0 {
        Seq::empty()
    } else {
        asked(worker, events.drop_last()).push(
            run(worker, events.drop_last()).after(events.last()).1,
        )
    }
}

/// Everything a worker asked for since it started, up to what it asked for in response to the
/// last of `events`.
pub open spec fn life(
    addr: SocketAddress,
    config: WorkerConfig,
    events: Seq<EventView>,
) -> Seq<ActionView> {
    seq![ActionView::Link(LinkLoop::attempting(addr, config.reconnect_timeout).pending())] + asked(
        WorkerView::start(addr, config),
        events,
    )
}

impl WorkerView {
    /// The worker holds a stream exactly while it does not look for one and has not ended, it
    /// is to look for one only while it has none and only if it may, and it looks for one at its
    /// peer.
    pub open spec fn wf(self) -> bool {
        &&& self.stream <==> !(self.phase is Linking) && !(self.phase is Stopped)
        &&& self.should_reconnect ==> !self.stream && self.config.reconnect_timeout is Some
        &&& match self.phase {
            PhaseView::Linking(link) => link.wf() && link.addr == self.addr
                && link.reconnect_timeout == self.config.reconnect_timeout,
            PhaseView::Writing(attempt, _) | PhaseView::Reading(attempt, _) => attempt.wf()
                && attempt.retry_count == self.config.retry_count,
            _ => true,
        }
    }
}

proof fn lemma_wf_step(worker: WorkerView, event: EventView)
    requires
        worker.wf(),
    ensures
        worker.after(event).0.wf(),
        worker.after(event).0.addr == worker.addr,
        worker.after(event).0.config == worker.config,
{
}

/// From its start a worker holds a stream exactly while it neither looks for one nor has ended;
/// its peer and its configuration never change.
pub proof fn law_stream_held(addr: SocketAddress, config: WorkerConfig, events: Seq<EventView>)
    ensures
        run(WorkerView::start(addr, config), events).wf(),
        run(WorkerView::start(addr, config), events).addr == addr,
        run(WorkerView::start(addr, config), events).config == config,
    decreases events.len(),
{
    if events.len() > 0 {
        law_stream_held(addr, config, events.drop_last());
        lemma_wf_step(run(WorkerView::start(addr, config), events.drop_last()), events.last());
    }
}

/// The action turns a command down for want of a connection.
pub open spec fn turns_down(action: ActionView) -> bool {
    action matches ActionView::Reply { reply, result } && result == Err::<Seq<u8>, ErrorView>(
        ErrorView::NotConnected,
    )
}

proof fn lemma_life_grows(addr: SocketAddress, config: WorkerConfig, events: Seq<EventView>)
    requires
        events.len() > 0,
    ensures
        life(addr, config, events) == life(addr, config, events.drop_last()).push(
            run(WorkerView::start(addr, config), events.drop_last()).after(events.last()).1,
        ),
{
    assert(life(addr, config, events) =~= life(addr, config, events.drop_last()).push(
        run(WorkerView::start(addr, config), events.drop_last()).after(events.last()).1,
    ));
}

/// A worker that takes a command always has a stream for it: no command is turned down for want
/// of a connection.
pub proof fn law_commands_find_a_stream(
    addr: SocketAddress,
    config: WorkerConfig,
    events: Seq<EventView>,
)
    ensures
        forall|i: int|
            0 <= i < life(addr, config, events).len() ==> !turns_down(
                #[trigger] life(addr, config, events)[i],
            ),
    decreases events.len(),
{
    if events.len() > 0 {
        law_commands_find_a_stream(addr, config, events.drop_last());
        law_stream_held(addr, config, events.drop_last());
        lemma_life_grows(addr, config, events);
    }
}

/// What subscribers hear through an action.
pub open spec fn announced(action: ActionView) -> Option<SocketStateChange> {
    match action {
        ActionView::Link(LinkAction::Attempt(ConnectAction::Notify(change))) => Some(change),
        ActionView::Notify(change) => Some(change),
        _ => None,
    }
}

/// What subscribers hear through `actions`, in order.
pub open spec fn heard(actions: Seq<ActionView>) -> Seq<SocketStateChange>
    decreases actions.len(),
{
    if actions.len() == 0 {
        Seq::empty()
    } else {
        match announced(actions.last()) {
            Some(change) => heard(actions.drop_last()).push(change),
            None => heard(actions.drop_last()),
        }
    }
}

/// Subscribers may hear `next` right after `previous`.
pub open spec fn may_follow(previous: SocketStateChange, next: SocketStateChange) -> bool {
    match previous {
        SocketStateChange::Disconnected => next == SocketStateChange::Connecting,
        SocketStateChange::Connecting => next != SocketStateChange::Connecting,
        SocketStateChange::Connected => next == SocketStateChange::Disconnected,
    }
}

/// The changes tell a consistent story: it begins with an attempt to connect, every attempt ends
/// in success or failure, a connection is lost before the next attempt.
pub open spec fn consistent(changes: Seq<SocketStateChange>) -> bool {
    &&& changes.len() > 0 ==> changes[0] == SocketStateChange::Connecting
    &&& forall|i: int, j: int|
        0 <= i && j == i + 1 && j < changes.len() ==> may_follow(
            #[trigger] changes[i],
            #[trigger] changes[j],
        )
}

/// What subscribers heard last, if the worker has not ended.
spec fn heard_last(worker: WorkerView) -> SocketStateChange {
    match worker.phase {
        PhaseView::Linking(link) => match link.stage {
            LinkStage::Attempting(
                ConnectAttempt { stage: ConnectStage::Reporting { connected: true }, .. },
            ) => {
                SocketStateChange::Connected
            },
            LinkStage::Attempting(
                ConnectAttempt { stage: ConnectStage::Reporting { connected: false }, .. },
            ) => {
                SocketStateChange::Disconnected
            },
            LinkStage::Attempting(_) => SocketStateChange::Connecting,
            LinkStage::Waiting { .. } => SocketStateChange::Disconnected,
        },
        PhaseView::Losing => SocketStateChange::Disconnected,
        _ => SocketStateChange::Connected,
    }
}

proof fn lemma_heard_push(actions: Seq<ActionView>, action: ActionView)
    ensures
        heard(actions.push(action)) == match announced(action) {
            Some(change) => heard(actions).push(change),
            None => heard(actions),
        },
{
    assert(actions.push(action).drop_last() =~= actions);
}

proof fn lemma_heard(addr: SocketAddress, config: WorkerConfig, events: Seq<EventView>)
    ensures
        consistent(heard(life(addr, config, events))),
        heard(life(addr, config, events)).len() > 0,
        !(run(WorkerView::start(addr, config), events).phase is Stopped) ==> heard(
            life(addr, config, events),
        ).last() == heard_last(run(WorkerView::start(addr, config), events)),
    decreases events.len(),
{
    if events.len() == 0 {
        assert(life(addr, config, events) =~= Seq::empty().push(
            ActionView::Link(LinkLoop::attempting(addr, config.reconnect_timeout).pending()),
        ));
        lemma_heard_push(
            Seq::empty(),
            ActionView::Link(LinkLoop::attempting(addr, config.reconnect_timeout).pending()),
        );
    } else {
        let before = events.drop_last();
        lemma_heard(addr, config, before);
        law_stream_held(addr, config, before);
        lemma_life_grows(addr, config, events);
        let worker = run(WorkerView::start(addr, config), before);
        lemma_heard_push(life(addr, config, before), worker.after(events.last()).1);
    }
}

/// Subscribers are told a consistent story.
pub proof fn law_subscribers_hear_a_consistent_story(
    addr: SocketAddress,
    config: WorkerConfig,
    events: Seq<EventView>,
)
    ensures
        consistent(heard(life(addr, config, events))),
{
    lemma_heard(addr, config, events);
}

/// While a worker waits for something to do, the last thing subscribers heard is that there is a
/// connection.
pub proof fn law_idle_means_connected(
    addr: SocketAddress,
    config: WorkerConfig,
    events: Seq<EventView>,
)
    requires
        run(WorkerView::start(addr, config), events).phase is Idle,
    ensures
        heard(life(addr, config, events)).len() > 0,
        heard(life(addr, config, events)).last() == SocketStateChange::Connected,
{
    lemma_heard(addr, config, events);
}

/// The commands that a worker has taken.
pub open spec fn taken(
    addr: SocketAddress,
    config: WorkerConfig,
    events: Seq<EventView>,
) -> Seq<CommandView>
    decreases events.len(),
{
    if events.len() == 0 {
        Seq::empty()
    } else {
        let earlier = taken(addr, config, events.drop_last());
        match events.last() {
            EventView::Command(command) if run(
                WorkerView::start(addr, config),
                events.drop_last(),
            ).phase is Idle => earlier.push(command),
            _ => earlier,
        }
    }
}

/// Where the answers that `actions` hand over go, in order.
pub open spec fn answered(actions: Seq<ActionView>) -> Seq<ReplySender>
    decreases actions.len(),
{
    if actions.len() == 0 {
        Seq::empty()
    } else {
        match actions.last() {
            ActionView::Reply { reply, .. } => answered(actions.drop_last()).push(reply),
            _ => answered(actions.drop_last()),
        }
    }
}

/// Where the answer to the command in progress will go.
pub open spec fn in_progress(worker: WorkerView) -> Seq<ReplySender> {
    match worker.phase {
        PhaseView::Writing(_, reply) | PhaseView::Reading(_, reply) => seq![reply],
        _ => Seq::empty(),
    }
}

proof fn lemma_answered_push(actions: Seq<ActionView>, action: ActionView)
    ensures
        answered(actions.push(action)) == match action {
            ActionView::Reply { reply, .. } => answered(actions).push(reply),
            _ => answered(actions),
        },
{
    assert(actions.push(action).drop_last() =~= actions);
}

/// Commands are answered one by one in the order in which they were taken, each exactly once and
/// to its own sender; at most one, the last one taken, is still to be answered.
pub proof fn law_every_command_is_answered_once(
    addr: SocketAddress,
    config: WorkerConfig,
    events: Seq<EventView>,
)
    ensures
        taken(addr, config, events).map_values(|command: CommandView| command.reply) == answered(
            life(addr, config, events),
        ) + in_progress(run(WorkerView::start(addr, config), events)),
    decreases events.len(),
{
    let replies = |command: CommandView| command.reply;
    if events.len() == 0 {
        let link = LinkLoop::attempting(addr, config.reconnect_timeout);
        let first = ActionView::Link(link.pending());
        assert(life(addr, config, events) =~= Seq::empty().push(first));
        lemma_answered_push(Seq::empty(), first);
        assert(taken(addr, config, events).map_values(replies) =~= Seq::empty());
    } else {
        let before = events.drop_last();
        law_every_command_is_answered_once(addr, config, before);
        law_stream_held(addr, config, before);
        lemma_life_grows(addr, config, events);
        let worker = run(WorkerView::start(addr, config), before);
        let action = worker.after(events.last()).1;
        lemma_answered_push(life(addr, config, before), action);
        assert(taken(addr, config, events).map_values(replies) =~= answered(
            life(addr, config, events),
        ) + in_progress(run(WorkerView::start(addr, config), events)));
    }
}

proof fn lemma_in_progress_is_last_taken(
    addr: SocketAddress,
    config: WorkerConfig,
    events: Seq<EventView>,
)
    ensures
        match run(WorkerView::start(addr, config), events).phase {
            PhaseView::Writing(attempt, reply) | PhaseView::Reading(attempt, reply) => {
                &&& taken(addr, config, events).len() > 0
                &&& taken(addr, config, events).last() == CommandView {
                    packet: attempt.packet,
                    reply,
                }
            },
            _ => true,
        },
    decreases events.len(),
{
    if events.len() > 0 {
        lemma_in_progress_is_last_taken(addr, config, events.drop_last());
    }
}

/// What a worker writes is always the packet of the command that it took last, and all the
/// commands before that one have been answered by then. The answer to it goes to its own sender.
pub proof fn law_writes_the_command_taken_last(
    addr: SocketAddress,
    config: WorkerConfig,
    events: Seq<EventView>,
)
    ensures
        ({
            let commands = taken(addr, config, events);
            let replies = |command: CommandView| command.reply;
            let actions = life(addr, config, events);
            &&& actions.last() matches ActionView::Write { packet, .. } ==> {
                &&& commands.len() > 0
                &&& packet == commands.last().packet
                &&& answered(actions) == commands.drop_last().map_values(replies)
            }
            &&& actions.last() is Read ==> {
                &&& commands.len() > 0
                &&& answered(actions) == commands.drop_last().map_values(replies)
            }
            &&& actions.last() matches ActionView::Reply { reply, .. } ==> {
                &&& commands.len() > 0
                &&& reply == commands.last().reply
                &&& answered(actions) == commands.map_values(replies)
            }
        }),
{
    let commands = taken(addr, config, events);
    let replies = |command: CommandView| command.reply;
    let actions = life(addr, config, events);
    law_every_command_is_answered_once(addr, config, events);
    lemma_in_progress_is_last_taken(addr, config, events);
    if events.len() > 0 {
        let before = events.drop_last();
        lemma_life_grows(addr, config, events);
        lemma_in_progress_is_last_taken(addr, config, before);
        law_stream_held(addr, config, before);
        let worker = run(WorkerView::start(addr, config), events);
        if actions.last() is Write || actions.last() is Read {
            assert(worker.phase is Writing || worker.phase is Reading);
            assert(commands.map_values(replies).drop_last() =~= commands.drop_last().map_values(
                replies,
            ));
            assert((answered(actions) + in_progress(worker)).drop_last() =~= answered(actions));
        }
        if actions.last() is Reply {
            assert(in_progress(worker) =~= Seq::empty());
            assert(answered(actions) + in_progress(worker) =~= answered(actions));
        }
    }
}

/// A response that a worker hands over is what it has just read: the bytes that came, and no
/// others.
pub proof fn law_responses_are_what_was_read(
    addr: SocketAddress,
    config: WorkerConfig,
    events: Seq<EventView>,
)
    ensures
        life(addr, config, events).last() matches ActionView::Reply {
            result: Ok(response),
            ..
        } ==> events.len() > 0 && (events.last() matches EventView::Received(
            ReadOutcomeView::Received { buffer, count },
        ) && count > 0 && response == first_bytes(buffer, count as int)),
{
    if events.len() > 0 {
        lemma_life_grows(addr, config, events);
    }
}

/// The action answers a command with a response or with trouble on the connection.
pub open spec fn is_plain_answer(action: ActionView) -> bool {
    action matches ActionView::Reply { reply, result } ==> match result {
        Ok(_) => true,
        Err(error) => error is ConnectionFailed,
    }
}

/// Every answer that a worker gives is a response or tells of trouble on the connection. It never
/// passes on a unit's error, and it never turns a command down for want of a connection.
pub proof fn law_answers_are_plain(
    addr: SocketAddress,
    config: WorkerConfig,
    events: Seq<EventView>,
)
    ensures
        forall|i: int|
            0 <= i < life(addr, config, events).len() ==> is_plain_answer(
                #[trigger] life(addr, config, events)[i],
            ),
    decreases events.len(),
{
    if events.len() > 0 {
        law_answers_are_plain(addr, config, events.drop_last());
        law_stream_held(addr, config, events.drop_last());
        lemma_life_grows(addr, config, events);
    }
}

/// The action dials the peer.
pub open spec fn is_dial(action: ActionView) -> bool {
    action matches ActionView::Link(LinkAction::Attempt(ConnectAction::Connect { .. }))
}

/// How often `actions` dial the peer.
pub open spec fn dials(actions: Seq<ActionView>) -> nat
    decreases actions.len(),
{
    if actions.len() == 0 {
        0
    } else {
        dials(actions.drop_last()) + if is_dial(actions.last()) {
            1nat
        } else {
            0nat
        }
    }
}

/// The action is a pause before an attempt to connect.
pub open spec fn is_pause(action: ActionView) -> bool {
    action matches ActionView::Link(LinkAction::Sleep { .. })
}

/// How often `actions` pause before an attempt to connect.
pub open spec fn pauses(actions: Seq<ActionView>) -> nat
    decreases actions.len(),
{
    if actions.len() == 0 {
        0
    } else {
        pauses(actions.drop_last()) + if is_pause(actions.last()) {
            1nat
        } else {
            0nat
        }
    }
}

proof fn lemma_counts_push(actions: Seq<ActionView>, action: ActionView)
    ensures
        dials(actions.push(action)) == dials(actions) + if is_dial(action) {
            1nat
        } else {
            0nat
        },
        pauses(actions.push(action)) == pauses(actions) + if is_pause(action) {
            1nat
        } else {
            0nat
        },
{
    assert(actions.push(action).drop_last() =~= actions);
}

/// The pause before the next dial, if one is needed, has been asked for.
spec fn may_dial(worker: WorkerView) -> bool {
    worker.phase matches PhaseView::Linking(link) && match link.stage {
        LinkStage::Attempting(attempt) => attempt.stage is Announcing,
        LinkStage::Waiting { .. } => true,
    }
}

proof fn lemma_dials_and_pauses(addr: SocketAddress, config: WorkerConfig, events: Seq<EventView>)
    ensures
        ({
            let worker = run(WorkerView::start(addr, config), events);
            let dials = dials(life(addr, config, events));
            let pauses = pauses(life(addr, config, events));
            &&& !(worker.phase is Stopped) ==> dials == pauses + if may_dial(worker) {
                0nat
            } else {
                1nat
            }
            &&& pauses <= dials <= pauses + 1
        }),
    decreases events.len(),
{
    if events.len() == 0 {
        let link = LinkLoop::attempting(addr, config.reconnect_timeout);
        let first = ActionView::Link(link.pending());
        assert(life(addr, config, events) =~= Seq::empty().push(first));
        lemma_counts_push(Seq::empty(), first);
    } else {
        let before = events.drop_last();
        lemma_dials_and_pauses(addr, config, before);
        law_stream_held(addr, config, before);
        lemma_life_grows(addr, config, events);
        let worker = run(WorkerView::start(addr, config), before);
        lemma_counts_push(life(addr, config, before), worker.after(events.last()).1);
    }
}

/// Dials and pauses alternate, beginning with a dial: the first attempt is made at once, and each
/// later one after exactly one pause.
pub proof fn law_dials_and_pauses_alternate(
    addr: SocketAddress,
    config: WorkerConfig,
    events: Seq<EventView>,
)
    ensures
        pauses(life(addr, config, events)) <= dials(life(addr, config, events)),
        dials(life(addr, config, events)) <= pauses(life(addr, config, events)) + 1,
{
    lemma_dials_and_pauses(addr, config, events);
}

/// Every pause lasts as long as the configuration says; without a reconnect timeout there is
/// none.
pub proof fn law_pauses_as_configured(
    addr: SocketAddress,
    config: WorkerConfig,
    events: Seq<EventView>,
)
    ensures
        forall|i: int|
            0 <= i < life(addr, config, events).len() && is_pause(
                #[trigger] life(addr, config, events)[i],
            ) ==> config.reconnect_timeout is Some && life(addr, config, events)[i]
                == ActionView::Link(
                LinkAction::Sleep { seconds: config.reconnect_timeout->Some_0 },
            ),
    decreases events.len(),
{
    if events.len() > 0 {
        law_pauses_as_configured(addr, config, events.drop_last());
        law_stream_held(addr, config, events.drop_last());
        lemma_life_grows(addr, config, events);
    }
}

proof fn lemma_no_pauses(actions: Seq<ActionView>)
    requires
        forall|i: int| 0 <= i < actions.len() ==> !is_pause(#[trigger] actions[i]),
    ensures
        pauses(actions) == 0,
    decreases actions.len(),
{
    if actions.len() > 0 {
        assert(!is_pause(actions[actions.len() - 1]));
        let before = actions.drop_last();
        assert forall|i: int| 0 <= i < before.len() implies !is_pause(#[trigger] before[i]) by {
            assert(!is_pause(actions[i]));
        }
        lemma_no_pauses(before);
    }
}

proof fn lemma_no_second_attempt(
    addr: SocketAddress,
    config: WorkerConfig,
    events: Seq<EventView>,
)
    requires
        config.reconnect_timeout is None,
    ensures
        forall|i: int|
            0 < i < heard(life(addr, config, events)).len() ==> #[trigger] heard(
                life(addr, config, events),
            )[i] != SocketStateChange::Connecting,
    decreases events.len(),
{
    if events.len() == 0 {
        let link = LinkLoop::attempting(addr, config.reconnect_timeout);
        let first = ActionView::Link(link.pending());
        assert(life(addr, config, events) =~= Seq::empty().push(first));
        lemma_heard_push(Seq::empty(), first);
    } else {
        let before = events.drop_last();
        lemma_no_second_attempt(addr, config, before);
        law_stream_held(addr, config, before);
        lemma_life_grows(addr, config, events);
        let worker = run(WorkerView::start(addr, config), before);
        lemma_heard_push(life(addr, config, before), worker.after(events.last()).1);
    }
}

/// Without a reconnect timeout a worker makes a single attempt to connect in its life: it dials
/// at most once, and subscribers hear of an attempt at the start and never again.
pub proof fn law_single_attempt_without_timeout(
    addr: SocketAddress,
    config: WorkerConfig,
    events: Seq<EventView>,
)
    requires
        config.reconnect_timeout is None,
    ensures
        dials(life(addr, config, events)) <= 1,
        heard(life(addr, config, events)).len() > 0,
        heard(life(addr, config, events))[0] == SocketStateChange::Connecting,
        forall|i: int|
            0 < i < heard(life(addr, config, events)).len() ==> #[trigger] heard(
                life(addr, config, events),
            )[i] != SocketStateChange::Connecting,
{
    law_dials_and_pauses_alternate(addr, config, events);
    law_pauses_as_configured(addr, config, events);
    lemma_no_pauses(life(addr, config, events));
    lemma_heard(addr, config, events);
    lemma_no_second_attempt(addr, config, events);
}

/// Whatever happens, a worker dials no peer but the one that it was started for.
pub proof fn law_dials_its_peer(
    addr: SocketAddress,
    config: WorkerConfig,
    events: Seq<EventView>,
)
    ensures
        forall|i: int|
            0 <= i < life(addr, config, events).len() && is_dial(
                #[trigger] life(addr, config, events)[i],
            ) ==> life(addr, config, events)[i] == ActionView::Link(
                LinkAction::Attempt(ConnectAction::Connect { addr }),
            ),
    decreases events.len(),
{
    if events.len() > 0 {
        law_dials_its_peer(addr, config, events.drop_last());
        law_stream_held(addr, config, events.drop_last());
        lemma_life_grows(addr, config, events);
    }
}

/// The action waits, writes, reads and checks as long as it should, and offers a response as many
/// bytes as it should.
pub open spec fn in_time(config: WorkerConfig, action: ActionView) -> bool {
    match action {
        ActionView::Select { check_millis } => check_millis == CHECK_INTERVAL_MILLIS,
        ActionView::Write { timeout_millis, .. } => timeout_millis == WRITE_TIMEOUT_MILLIS,
        ActionView::Read { capacity, timeout_millis } => capacity == RESPONSE_CAPACITY
            && timeout_millis == config.retry_interval,
        ActionView::Probe { timeout_millis } => timeout_millis == CHECK_TIMEOUT_MILLIS,
        _ => true,
    }
}

/// Throughout its life a worker checks the socket every [`CHECK_INTERVAL_MILLIS`], for at most
/// [`CHECK_TIMEOUT_MILLIS`]; every write has [`WRITE_TIMEOUT_MILLIS`], and every read has the
/// configured interval and room for [`RESPONSE_CAPACITY`] bytes.
pub proof fn law_time_limits(addr: SocketAddress, config: WorkerConfig, events: Seq<EventView>)
    ensures
        forall|i: int|
            0 <= i < life(addr, config, events).len() ==> in_time(
                config,
                #[trigger] life(addr, config, events)[i],
            ),
    decreases events.len(),
{
    if events.len() > 0 {
        law_time_limits(addr, config, events.drop_last());
        law_stream_held(addr, config, events.drop_last());
        lemma_life_grows(addr, config, events);
    }
}

/// The event is the client's wish that the worker stop.
pub open spec fn asks_to_stop(event: EventView) -> bool {
    event == EventView::Shutdown || event == EventView::Link(LinkEvent::Shutdown)
}

/// With a reconnect timeout a worker never ends unless it is asked to.
pub proof fn law_ends_only_when_asked(
    addr: SocketAddress,
    config: WorkerConfig,
    events: Seq<EventView>,
)
    requires
        config.reconnect_timeout is Some,
        run(WorkerView::start(addr, config), events).phase is Stopped,
    ensures
        exists|i: int| 0 <= i < events.len() && asks_to_stop(#[trigger] events[i]),
    decreases events.len(),
{
    let before = events.drop_last();
    law_stream_held(addr, config, before);
    if run(WorkerView::start(addr, config), before).phase is Stopped {
        law_ends_only_when_asked(addr, config, before);
        let i = choose|i: int| 0 <= i < before.len() && asks_to_stop(#[trigger] before[i]);
        assert(asks_to_stop(events[i]));
    } else {
        assert(asks_to_stop(events[events.len() - 1]));
    }
}

/// A worker that looks for a connection or waits for something to do ends as soon as it is asked
/// to.
pub proof fn law_ends_when_asked(worker: WorkerView)
    ensures
        worker.phase is Linking ==> worker.after(EventView::Link(LinkEvent::Shutdown))
            == worker.stop(),
        worker.phase is Idle ==> worker.after(EventView::Shutdown) == worker.stop(),
{
}

/// A worker that has ended stays as it is.
pub proof fn law_end_is_final(worker: WorkerView, events: Seq<EventView>)
    requires
        worker.phase is Stopped,
    ensures
        run(worker, events) == worker,
        forall|i: int|
            0 <= i < events.len() ==> #[trigger] asked(worker, events)[i]
                == ActionView::Unexpected(events[i]),
        asked(worker, events).len() == events.len(),
    decreases events.len(),
{
    if events.len() > 0 {
        law_end_is_final(worker, events.drop_last());
    }
}

/// An event that a worker was not waiting for changes nothing.
pub proof fn law_unexpected_events_change_nothing(worker: WorkerView, event: EventView)
    requires
        worker.after(event).1 is Unexpected,
    ensures
        worker.after(event) == (worker, ActionView::Unexpected(event)),
{
}

/// The events by which a worker learns of a try.
pub open spec fn reported(outcome: TryView) -> Seq<EventView> {
    if outcome.write is Written {
        seq![EventView::Written(outcome.write), EventView::Received(outcome.read)]
    } else {
        seq![EventView::Written(outcome.write)]
    }
}

/// The events by which a worker learns of a command and of the tries made for it.
pub open spec fn command_reported(command: CommandView, tries: Seq<TryView>) -> Seq<EventView>
    decreases tries.len(),
{
    if tries.len() == 0 {
        seq![EventView::Command(command)]
    } else {
        command_reported(command, tries.drop_last()) + reported(tries.last())
    }
}

proof fn lemma_run_push(worker: WorkerView, events: Seq<EventView>, event: EventView)
    ensures
        run(worker, events.push(event)) == run(worker, events).after(event).0,
        asked(worker, events.push(event)) == asked(worker, events).push(
            run(worker, events).after(event).1,
        ),
{
    assert(events.push(event).drop_last() =~= events);
}

/// A try during which the worker writes leads where the command itself says.
proof fn lemma_try_reported(
    worker: WorkerView,
    events: Seq<EventView>,
    attempt: AttemptView,
    reply: ReplySender,
    outcome: TryView,
)
    requires
        run(worker, events).phase == PhaseView::Writing(attempt, reply),
    ensures
        run(worker, events + reported(outcome)) == run(worker, events).carry_on(
            attempt.tried(outcome),
            reply,
        ).0,
        asked(worker, events + reported(outcome)).len() > 0,
        asked(worker, events + reported(outcome)).last() == run(worker, events).carry_on(
            attempt.tried(outcome),
            reply,
        ).1,
{
    let written = events.push(EventView::Written(outcome.write));
    lemma_run_push(worker, events, EventView::Written(outcome.write));
    if outcome.write is Written {
        lemma_run_push(worker, written, EventView::Received(outcome.read));
        assert(events + reported(outcome) =~= written.push(EventView::Received(outcome.read)));
    } else {
        assert(events + reported(outcome) =~= written);
    }
}

proof fn lemma_command_in_progress(worker: WorkerView, command: CommandView, tries: Seq<TryView>)
    requires
        worker.phase is Idle,
        worker.stream,
        tries.len() <= worker.config.retry_count,
        forall|i: int| 0 <= i < tries.len() ==> !#[trigger] tries[i].settles(),
    ensures
        run(worker, command_reported(command, tries)) == worker.enter(
            PhaseView::Writing(
                AttemptView {
                    packet: command.packet,
                    retry_count: worker.config.retry_count,
                    number: tries.len() as usize,
                },
                command.reply,
            ),
        ),
        asked(worker, command_reported(command, tries)).len() > 0,
        asked(worker, command_reported(command, tries)).last() == (ActionView::Write {
            packet: command.packet,
            timeout_millis: WRITE_TIMEOUT_MILLIS,
        }),
    decreases tries.len(),
{
    if tries.len() == 0 {
        assert(seq![EventView::Command(command)] =~= Seq::empty().push(EventView::Command(command)));
        lemma_run_push(worker, Seq::empty(), EventView::Command(command));
    } else {
        let before = tries.drop_last();
        assert forall|i: int| 0 <= i < before.len() implies !#[trigger] before[i].settles() by {
            assert(!tries[i].settles());
        }
        lemma_command_in_progress(worker, command, before);
        assert(!tries[tries.len() - 1].settles());
        lemma_try_reported(
            worker,
            command_reported(command, before),
            AttemptView {
                packet: command.packet,
                retry_count: worker.config.retry_count,
                number: before.len() as usize,
            },
            command.reply,
            tries.last(),
        );
    }
}

/// An idle worker that takes a command tries it until a try settles it or no further try is
/// allowed, then hands the verdict of that try to the command's own sender and is idle again,
/// with everything as it was before.
pub proof fn law_command_is_carried_out(
    worker: WorkerView,
    command: CommandView,
    tries: Seq<TryView>,
)
    requires
        worker.wf(),
        worker.phase is Idle,
        decides(tries, worker.config.retry_count as int, tries.len() - 1),
    ensures
        asked(worker, command_reported(command, tries)).last() == (ActionView::Reply {
            reply: command.reply,
            result: tries.last().verdict(),
        }),
        run(worker, command_reported(command, tries).push(EventView::Delivered)) == worker,
{
    let before = tries.drop_last();
    assert forall|i: int| 0 <= i < before.len() implies !#[trigger] before[i].settles() by {
        assert(!tries[i].settles());
    }
    lemma_command_in_progress(worker, command, before);
    let attempt = AttemptView {
        packet: command.packet,
        retry_count: worker.config.retry_count,
        number: before.len() as usize,
    };
    lemma_try_reported(
        worker,
        command_reported(command, before),
        attempt,
        command.reply,
        tries.last(),
    );
    lemma_run_push(worker, command_reported(command, tries), EventView::Delivered);
}

/// As long as every try of a command failed and another one is allowed, the worker writes the
/// command's packet again.
pub proof fn law_command_is_repeated(worker: WorkerView, command: CommandView, tries: Seq<TryView>)
    requires
        worker.wf(),
        worker.phase is Idle,
        tries.len() <= worker.config.retry_count,
        forall|i: int| 0 <= i < tries.len() ==> !#[trigger] tries[i].settles(),
    ensures
        asked(worker, command_reported(command, tries)).last() == (ActionView::Write {
            packet: command.packet,
            timeout_millis: WRITE_TIMEOUT_MILLIS,
        }),
{
    lemma_command_in_progress(worker, command, tries);
}

/// A worker that finds its connection dead tells the subscribers, lets go of the stream, and then
/// pauses before the next attempt to connect if there is a reconnect timeout, and ends otherwise.
pub proof fn law_lost_connection(worker: WorkerView, probe: SocketProbe)
    requires
        worker.wf(),
        worker.phase is Probing,
        !probe.alive(),
    ensures
        ({
            let (losing, first) = worker.after(EventView::Probed(probe));
            let (lost, second) = losing.after(EventView::Delivered);
            &&& first == ActionView::Notify(SocketStateChange::Disconnected)
            &&& !lost.stream
            &&& match worker.config.reconnect_timeout {
                Some(seconds) => second == ActionView::Link(LinkAction::Sleep { seconds })
                    && lost.phase is Linking,
                None => second == ActionView::Stop && lost.phase is Stopped,
            }
        }),
{
}

/// The events of an attempt to connect that nobody interrupts.
pub open spec fn attempt_events(connected: bool) -> Seq<EventView> {
    seq![
        EventView::Link(LinkEvent::Attempt(ConnectEvent::Notified)),
        EventView::Link(LinkEvent::Attempt(ConnectEvent::Dialed { connected })),
        EventView::Link(LinkEvent::Attempt(ConnectEvent::Notified)),
    ]
}

/// The events of `failures` attempts that fail, each with the pause that follows it.
pub open spec fn failed_attempts(failures: nat) -> Seq<EventView>
    decreases failures,
{
    if failures == 0 {
        Seq::empty()
    } else {
        failed_attempts((failures - 1) as nat) + attempt_events(false).push(
            EventView::Link(LinkEvent::Slept),
        )
    }
}

proof fn lemma_attempt(worker: WorkerView, events: Seq<EventView>, connected: bool)
    requires
        run(worker, events).phase == PhaseView::Linking(
            LinkLoop::attempting(
                run(worker, events).addr,
                run(worker, events).config.reconnect_timeout,
            ),
        ),
    ensures
        run(worker, events + attempt_events(connected)) == {
            let before = run(worker, events);
            if connected {
                WorkerView { stream: true, should_reconnect: false, ..before }.resume().0
            } else {
                match before.config.reconnect_timeout {
                    Some(seconds) => before.enter(
                        PhaseView::Linking(LinkLoop::waiting(before.addr, seconds)),
                    ),
                    None => before.stop().0,
                }
            }
        },
{
    let notified = EventView::Link(LinkEvent::Attempt(ConnectEvent::Notified));
    let dialed = EventView::Link(LinkEvent::Attempt(ConnectEvent::Dialed { connected }));
    lemma_run_push(worker, events, notified);
    lemma_run_push(worker, events.push(notified), dialed);
    lemma_run_push(worker, events.push(notified).push(dialed), notified);
    assert(events + attempt_events(connected) =~= events.push(notified).push(dialed).push(
        notified,
    ));
}

proof fn lemma_failed_attempts(worker: WorkerView, failures: nat)
    requires
        worker.config.reconnect_timeout is Some,
        worker.phase == PhaseView::Linking(
            LinkLoop::attempting(worker.addr, worker.config.reconnect_timeout),
        ),
    ensures
        run(worker, failed_attempts(failures)) == worker,
    decreases failures,
{
    if failures > 0 {
        let before = failed_attempts((failures - 1) as nat);
        let slept = EventView::Link(LinkEvent::Slept);
        lemma_failed_attempts(worker, (failures - 1) as nat);
        lemma_attempt(worker, before, false);
        lemma_run_push(worker, before + attempt_events(false), slept);
        assert(failed_attempts(failures) =~= (before + attempt_events(false)).push(slept));
    }
}

/// With a reconnect timeout a worker that looks for a connection does not give up: after any
/// number of failed attempts, the first one that succeeds makes it ready for commands.
pub proof fn law_attempts_until_success(worker: WorkerView, failures: nat)
    requires
        worker.config.reconnect_timeout is Some,
        worker.phase == PhaseView::Linking(
            LinkLoop::attempting(worker.addr, worker.config.reconnect_timeout),
        ),
    ensures
        run(worker, failed_attempts(failures) + attempt_events(true)) == (WorkerView {
            stream: true,
            should_reconnect: false,
            phase: PhaseView::Idle,
            ..worker
        }),
{
    lemma_failed_attempts(worker, failures);
    lemma_attempt(worker, failed_attempts(failures), true);
}

/// Without a reconnect timeout a worker that looks for a connection makes one attempt, which
/// decides whether it becomes ready for commands or ends.
pub proof fn law_one_attempt_without_timeout(
    addr: SocketAddress,
    config: WorkerConfig,
    connected: bool,
)
    requires
        config.reconnect_timeout is None,
    ensures
        ({
            let worker = run(WorkerView::start(addr, config), attempt_events(connected));
            worker.phase == if connected {
                PhaseView::Idle
            } else {
                PhaseView::Stopped
            }
        }),
{
    lemma_attempt(WorkerView::start(addr, config), Seq::empty(), connected);
    assert(Seq::empty() + attempt_events(connected) =~= attempt_events(connected));
}

/// The event reports what became of the action.
pub open spec fn answers(event: EventView, action: ActionView) -> bool {
    match action {
        ActionView::Link(LinkAction::Attempt(ConnectAction::Notify(_))) => event == EventView::Link(
            LinkEvent::Attempt(ConnectEvent::Notified),
        ) || event == EventView::Link(LinkEvent::Shutdown),
        ActionView::Link(LinkAction::Attempt(ConnectAction::Connect { .. })) => event matches
            EventView::Link(LinkEvent::Attempt(ConnectEvent::Dialed { .. })) || event
            == EventView::Link(LinkEvent::Shutdown),
        ActionView::Link(LinkAction::Sleep { .. }) => event == EventView::Link(LinkEvent::Slept)
            || event == EventView::Link(LinkEvent::Shutdown),
        ActionView::Select { .. } => event is Command || event is Tick || event is Shutdown,
        ActionView::Write { .. } => event is Written,
        ActionView::Read { .. } => event is Received,
        ActionView::Probe { .. } => event is Probed,
        ActionView::Reply { .. } | ActionView::Notify(_) => event is Delivered,
        ActionView::Stop | ActionView::Unexpected(_) => false,
    }
}

/// The action is what a worker asks for in its phase.
spec fn fits(worker: WorkerView, action: ActionView) -> bool {
    match worker.phase {
        PhaseView::Linking(link) => action == ActionView::Link(link.pending()),
        PhaseView::Idle => action is Select,
        PhaseView::Writing(_, _) => action is Write,
        PhaseView::Reading(_, _) => action is Read,
        PhaseView::Replying => action is Reply,
        PhaseView::Probing => action is Probe,
        PhaseView::Losing => action is Notify,
        PhaseView::Stopped => action is Stop,
    }
}

/// Every event reports what became of the action that the worker asked for just before.
pub open spec fn well_driven(
    addr: SocketAddress,
    config: WorkerConfig,
    events: Seq<EventView>,
) -> bool {
    forall|i: int|
        0 <= i < events.len() ==> answers(#[trigger] events[i], life(addr, config, events)[i])
}

proof fn lemma_well_driven(addr: SocketAddress, config: WorkerConfig, events: Seq<EventView>)
    requires
        well_driven(addr, config, events),
    ensures
        life(addr, config, events).len() == events.len() + 1,
        fits(run(WorkerView::start(addr, config), events), life(addr, config, events).last()),
        forall|i: int|
            0 <= i < life(addr, config, events).len() ==> !(
            #[trigger] life(addr, config, events)[i] is Unexpected),
    decreases events.len(),
{
    if events.len() > 0 {
        let before = events.drop_last();
        lemma_life_grows(addr, config, events);
        lemma_life_length(addr, config, before);
        assert forall|i: int| 0 <= i < before.len() implies answers(
            #[trigger] before[i],
            life(addr, config, before)[i],
        ) by {
            assert(answers(events[i], life(addr, config, events)[i]));
        }
        lemma_well_driven(addr, config, before);
        law_stream_held(addr, config, before);
        assert(answers(events[events.len() - 1], life(addr, config, events)[events.len() - 1]));
        let worker = run(WorkerView::start(addr, config), before);
        assert(answers(events.last(), life(addr, config, before).last()));
        assert(fits(worker.after(events.last()).0, worker.after(events.last()).1));
    }
}

proof fn lemma_life_length(addr: SocketAddress, config: WorkerConfig, events: Seq<EventView>)
    ensures
        life(addr, config, events).len() == events.len() + 1,
    decreases events.len(),
{
    if events.len() > 0 {
        lemma_life_grows(addr, config, events);
        lemma_life_length(addr, config, events.drop_last());
    }
}

/// A worker that is always told what became of the action it asked for never finds an event
/// unexpected.
pub proof fn law_answers_are_expected(
    addr: SocketAddress,
    config: WorkerConfig,
    events: Seq<EventView>,
)
    requires
        well_driven(addr, config, events),
    ensures
        forall|i: int|
            0 <= i < life(addr, config, events).len() ==> !(
            #[trigger] life(addr, config, events)[i] is Unexpected),
{
    lemma_well_driven(addr, config, events);
}

} // verus!
