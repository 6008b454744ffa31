//! What holds of the search for a connection on its own, whatever events come its way.

use crate::ipv4::SocketAddress;
use crate::link::{
    ConnectAction, ConnectAttempt, ConnectEvent, ConnectStage, ConnectStep, LinkAction, LinkEvent,
    LinkLoop, LinkStage, LinkStep, SocketStateChange,
};
use vstd::prelude::*;

verus! {

/// Where a search stands after `events`. An event that it was not waiting for leaves it as it is,
/// and so does anything that comes after its end.
pub open spec fn searched(link: LinkLoop, events: Seq<LinkEvent>) -> LinkStep
    decreases events.len(),
{
    if events.len() == 0 {
        LinkStep::Continue(link)
    } else {
        match searched(link, events.drop_last()) {
            LinkStep::Continue(before) => match before.after(events.last()) {
                LinkStep::Unexpected => LinkStep::Continue(before),
                step => step,
            },
            ended => ended,
        }
    }
}

/// Everything a search asked for since it began, up to what follows the last of `events`.
pub open spec fn requested(link: LinkLoop, events: Seq<LinkEvent>) -> Seq<LinkAction>
    decreases events.len(),
{
    if events.len() == 0 {
        seq![link.pending()]
    } else {
        let earlier = requested(link, events.drop_last());
        match searched(link, events.drop_last()) {
            LinkStep::Continue(before) => match before.after(events.last()) {
                LinkStep::Continue(next) => earlier.push(next.pending()),
                _ => earlier,
            },
            _ => earlier,
        }
    }
}

/// How each dial of a search ended, in order.
pub open spec fn outcomes(link: LinkLoop, events: Seq<LinkEvent>) -> Seq<bool>
    decreases events.len(),
{
    if events.len() == 0 {
        Seq::empty()
    } else {
        let earlier = outcomes(link, events.drop_last());
        match (searched(link, events.drop_last()), events.last()) {
            (
                LinkStep::Continue(before),
                LinkEvent::Attempt(ConnectEvent::Dialed { connected }),
            ) => if stage_of(before) == Some(ConnectStage::Dialing) {
                earlier.push(connected)
            } else {
                earlier
            },
            _ => earlier,
        }
    }
}

/// How far the attempt of a search has come, unless the search pauses.
pub open spec fn stage_of(link: LinkLoop) -> Option<ConnectStage> {
    match link.stage {
        LinkStage::Attempting(attempt) => Some(attempt.stage),
        LinkStage::Waiting { .. } => None,
    }
}

/// The action dials the peer.
pub open spec fn is_dial(action: LinkAction) -> bool {
    action matches LinkAction::Attempt(ConnectAction::Connect { .. })
}

/// How often `actions` dial the peer.
pub open spec fn dials(actions: Seq<LinkAction>) -> nat
    decreases actions.len(),
{
    if actions.len() == 0 {
        0
    } else {
        dials(actions.drop_last()) + if is_dial(actions.last()) {
            1nat
        } else {
            0nat
        }
    }
}

/// How often `actions` pause.
pub open spec fn pauses(actions: Seq<LinkAction>) -> nat
    decreases actions.len(),
{
    if actions.len() == 0 {
        0
    } else {
        pauses(actions.drop_last()) + if actions.last() is Sleep {
            1nat
        } else {
            0nat
        }
    }
}

/// The search is at its beginning: a first attempt, or the pause after a loss.
pub open spec fn begins(link: LinkLoop) -> bool {
    ||| link == LinkLoop::attempting(link.addr, link.reconnect_timeout)
    ||| link.reconnect_timeout is Some && link == LinkLoop::waiting(
        link.addr,
        link.reconnect_timeout->Some_0,
    )
}

proof fn lemma_counts_push(actions: Seq<LinkAction>, action: LinkAction)
    ensures
        dials(actions.push(action)) == dials(actions) + if is_dial(action) {
            1nat
        } else {
            0nat
        },
        pauses(actions.push(action)) == pauses(actions) + if action is Sleep {
            1nat
        } else {
            0nat
        },
{
    assert(actions.push(action).drop_last() =~= actions);
}

/// Every dial but the last failed.
pub open spec fn failed_before_the_last(outcomes: Seq<bool>) -> bool {
    forall|i: int| 0 <= i < outcomes.len() - 1 ==> !#[trigger] outcomes[i]
}

/// Every dial failed.
spec fn all_failed(outcomes: Seq<bool>) -> bool {
    forall|i: int| 0 <= i < outcomes.len() ==> !#[trigger] outcomes[i]
}

/// The client wished the search to stop.
pub open spec fn told_to_stop(events: Seq<LinkEvent>) -> bool {
    exists|i: int| 0 <= i < events.len() && #[trigger] events[i] == LinkEvent::Shutdown
}

/// How the outcomes of the dials fit where a search stands.
spec fn outcomes_fit(link: LinkLoop, events: Seq<LinkEvent>) -> bool {
    let known = outcomes(link, events);
    match searched(link, events) {
        LinkStep::Continue(now) => {
            &&& now.wf()
            &&& now.addr == link.addr
            &&& now.reconnect_timeout == link.reconnect_timeout
            &&& match stage_of(now) {
                Some(ConnectStage::Reporting { connected }) => {
                    &&& known.len() > 0
                    &&& known.last() == connected
                    &&& failed_before_the_last(known)
                    &&& link.reconnect_timeout is None ==> known.len() == 1
                },
                _ => {
                    &&& all_failed(known)
                    &&& link.reconnect_timeout is None ==> known.len() == 0
                },
            }
        },
        LinkStep::Up => known.len() > 0 && known.last() && failed_before_the_last(known),
        LinkStep::Down => failed_before_the_last(known) && (told_to_stop(events) || (
        link.reconnect_timeout is None && known == seq![false])),
        LinkStep::Unexpected => false,
    }
}

proof fn lemma_outcomes(link: LinkLoop, events: Seq<LinkEvent>)
    requires
        begins(link),
    ensures
        outcomes_fit(link, events),
    decreases events.len(),
{
    if events.len() > 0 {
        let before = events.drop_last();
        lemma_outcomes(link, before);
        if told_to_stop(before) {
            let i = choose|i: int|
                0 <= i < before.len() && #[trigger] before[i] == LinkEvent::Shutdown;
            assert(events[i] == LinkEvent::Shutdown);
        }
        assert(events[events.len() - 1] == events.last());
        let known = outcomes(link, before);
        if known.len() > 0 {
            assert(known[known.len() - 1] == known.last());
        }
        if searched(link, events) is Down && !(searched(link, before) is Down) && !(events.last()
            is Shutdown) {
            assert(known =~= seq![false]);
        }
    }
}

/// A search gives up only if the client wishes it to stop, or, without a reconnect timeout, after
/// its one attempt has failed.
pub proof fn law_search_ends(link: LinkLoop, events: Seq<LinkEvent>)
    requires
        begins(link),
        searched(link, events) is Down,
    ensures
        told_to_stop(events) || (link.reconnect_timeout is None && outcomes(link, events) == seq![
            false,
        ]),
{
    lemma_outcomes(link, events);
}

/// A search dials again only after a failure: every dial before the last one failed. It finds a
/// connection only if the last one succeeded, and it never goes on past a success.
pub proof fn law_only_the_last_dial_succeeds(link: LinkLoop, events: Seq<LinkEvent>)
    requires
        begins(link),
    ensures
        failed_before_the_last(outcomes(link, events)),
        searched(link, events) is Up ==> outcomes(link, events).len() > 0 && outcomes(
            link,
            events,
        ).last(),
        searched(link, events) matches LinkStep::Continue(now) ==> outcomes(link, events).len() == 0
            || !outcomes(link, events).last() || stage_of(now) == Some(
            ConnectStage::Reporting { connected: true },
        ),
{
    lemma_outcomes(link, events);
}

proof fn lemma_counts(link: LinkLoop, events: Seq<LinkEvent>)
    requires
        begins(link),
    ensures
        ({
            let dials = dials(requested(link, events));
            let pauses = pauses(requested(link, events)) + if link.stage is Waiting {
                0nat
            } else {
                1nat
            };
            &&& dials <= pauses <= dials + 1
            &&& match searched(link, events) {
                LinkStep::Continue(now) => match stage_of(now) {
                    Some(ConnectStage::Dialing) => pauses == dials && dials == outcomes(
                        link,
                        events,
                    ).len() + 1,
                    Some(ConnectStage::Reporting { .. }) => pauses == dials && dials == outcomes(
                        link,
                        events,
                    ).len(),
                    _ => pauses == dials + 1 && dials == outcomes(link, events).len(),
                },
                LinkStep::Up => pauses == dials && dials == outcomes(link, events).len(),
                _ => true,
            }
        }),
    decreases events.len(),
{
    if events.len() == 0 {
        assert(requested(link, events) =~= Seq::empty().push(link.pending()));
        lemma_counts_push(Seq::empty(), link.pending());
    } else {
        let before = events.drop_last();
        lemma_counts(link, before);
        lemma_outcomes(link, before);
        if let LinkStep::Continue(now) = searched(link, before) {
            if let LinkStep::Continue(next) = now.after(events.last()) {
                lemma_counts_push(requested(link, before), next.pending());
            }
        }
    }
}

/// After a loss every dial comes after a pause of its own: a search that has dialled has paused
/// as often as it has dialled, also when it finds a connection; in between it is at most one pause
/// ahead.
pub proof fn law_one_pause_before_each_dial(
    addr: SocketAddress,
    seconds: u64,
    events: Seq<LinkEvent>,
)
    ensures
        ({
            let link = LinkLoop::waiting(addr, seconds);
            let dials = dials(requested(link, events));
            let pauses = pauses(requested(link, events));
            &&& dials <= pauses <= dials + 1
            &&& searched(link, events) is Up ==> pauses == dials && dials == outcomes(
                link,
                events,
            ).len()
            &&& searched(link, events) matches LinkStep::Continue(now) ==> (pauses == dials) == (
            stage_of(now) is Some && !(stage_of(now)->Some_0 is Announcing))
        }),
{
    lemma_counts(LinkLoop::waiting(addr, seconds), events);
}

/// The first attempt needs no pause, every later one does: a search that begins with an attempt
/// has dialled once more than it has paused when it finds a connection.
pub proof fn law_one_pause_between_dials(
    addr: SocketAddress,
    reconnect_timeout: Option<u64>,
    events: Seq<LinkEvent>,
)
    ensures
        ({
            let link = LinkLoop::attempting(addr, reconnect_timeout);
            let dials = dials(requested(link, events));
            let pauses = pauses(requested(link, events));
            &&& pauses <= dials <= pauses + 1
            &&& searched(link, events) is Up ==> dials == pauses + 1 && dials == outcomes(
                link,
                events,
            ).len()
        }),
{
    lemma_counts(LinkLoop::attempting(addr, reconnect_timeout), events);
}

/// Whatever happens, a search dials its peer alone and pauses as long as it was told to.
pub proof fn law_search_keeps_to_its_task(link: LinkLoop, events: Seq<LinkEvent>)
    requires
        begins(link),
    ensures
        forall|i: int|
            0 <= i < requested(link, events).len() ==> match #[trigger] requested(link, events)[i] {
                LinkAction::Attempt(ConnectAction::Connect { addr }) => addr == link.addr,
                LinkAction::Sleep { seconds } => link.reconnect_timeout == Some(seconds),
                _ => true,
            },
    decreases events.len(),
{
    if events.len() > 0 {
        law_search_keeps_to_its_task(link, events.drop_last());
        lemma_outcomes(link, events.drop_last());
    }
}

/// An attempt announces itself, then dials its peer and no other, and then says how that went.
pub proof fn law_attempt_asks_in_order(attempt: ConnectAttempt)
    ensures
        attempt.pending() == match attempt.stage {
            ConnectStage::Announcing => ConnectAction::Notify(SocketStateChange::Connecting),
            ConnectStage::Dialing => ConnectAction::Connect { addr: attempt.addr },
            ConnectStage::Reporting { connected } => ConnectAction::Notify(
                if connected {
                    SocketStateChange::Connected
                } else {
                    SocketStateChange::Disconnected
                },
            ),
        },
{
}

/// An attempt goes from its announcement to the dial, from the dial to its report, and ends with
/// what the dial gave. It takes no other event.
pub proof fn law_attempt_goes_in_order(attempt: ConnectAttempt, connected: bool)
    ensures
        attempt.stage is Announcing ==> {
            &&& attempt.after(ConnectEvent::Notified) == ConnectStep::Continue(
                ConnectAttempt { addr: attempt.addr, stage: ConnectStage::Dialing },
            )
            &&& attempt.after(ConnectEvent::Dialed { connected }) == ConnectStep::Unexpected
        },
        attempt.stage is Dialing ==> {
            &&& attempt.after(ConnectEvent::Dialed { connected }) == ConnectStep::Continue(
                ConnectAttempt { addr: attempt.addr, stage: ConnectStage::Reporting { connected } },
            )
            &&& attempt.after(ConnectEvent::Notified) == ConnectStep::Unexpected
        },
        attempt.stage == (ConnectStage::Reporting { connected }) ==> attempt.after(
            ConnectEvent::Notified,
        ) == (ConnectStep::Finished { connected }),
        attempt.stage is Reporting ==> attempt.after(ConnectEvent::Dialed { connected })
            == ConnectStep::Unexpected,
{
}

/// The first search begins with an attempt, a search after a loss with the pause.
pub proof fn law_beginnings(addr: SocketAddress, reconnect_timeout: Option<u64>, seconds: u64)
    ensures
        ConnectAttempt::begun(addr) == (ConnectAttempt { addr, stage: ConnectStage::Announcing }),
        LinkLoop::attempting(addr, reconnect_timeout) == (LinkLoop {
            addr,
            reconnect_timeout,
            stage: LinkStage::Attempting(ConnectAttempt { addr, stage: ConnectStage::Announcing }),
        }),
        LinkLoop::waiting(addr, seconds) == (LinkLoop {
            addr,
            reconnect_timeout: Some(seconds),
            stage: LinkStage::Waiting { seconds },
        }),
{
}

/// A search asks for what its attempt asks for, or for its pause.
pub proof fn law_search_asks_for_its_stage(link: LinkLoop)
    ensures
        match link.stage {
            LinkStage::Waiting { seconds } => link.pending() == (LinkAction::Sleep { seconds }),
            LinkStage::Attempting(attempt) => link.pending() == LinkAction::Attempt(
                attempt.pending(),
            ),
        },
{
}

/// The wish to stop ends a search wherever it stands.
pub proof fn law_search_can_always_be_stopped(link: LinkLoop)
    ensures
        link.after(LinkEvent::Shutdown) == LinkStep::Down,
{
}

/// After a pause comes an attempt at the same peer, and a pause ends in no other way.
pub proof fn law_pause_leads_to_an_attempt(link: LinkLoop, event: ConnectEvent)
    requires
        link.stage is Waiting,
    ensures
        link.after(LinkEvent::Slept) == LinkStep::Continue(
            LinkLoop {
                addr: link.addr,
                reconnect_timeout: link.reconnect_timeout,
                stage: LinkStage::Attempting(
                    ConnectAttempt { addr: link.addr, stage: ConnectStage::Announcing },
                ),
            },
        ),
        link.after(LinkEvent::Attempt(event)) == LinkStep::Unexpected,
{
}

/// An attempt that has succeeded ends the search. One that has failed leads to a pause of the
/// configured length, whatever came before, and without one to the end.
pub proof fn law_attempt_decides_the_search(link: LinkLoop, attempt: ConnectAttempt, connected: bool)
    requires
        link.stage == LinkStage::Attempting(attempt),
        attempt.stage == (ConnectStage::Reporting { connected }),
    ensures
        link.after(LinkEvent::Attempt(ConnectEvent::Notified)) == if connected {
            LinkStep::Up
        } else {
            match link.reconnect_timeout {
                Some(seconds) => LinkStep::Continue(
                    LinkLoop {
                        addr: link.addr,
                        reconnect_timeout: Some(seconds),
                        stage: LinkStage::Waiting { seconds },
                    },
                ),
                None => LinkStep::Down,
            }
        },
        link.after(LinkEvent::Attempt(ConnectEvent::Dialed { connected })) == LinkStep::Unexpected,
{
}

/// While an attempt is under way, the search goes on with it: it is announced, then the peer is
/// dialled, and the outcome of the dial is what will be reported.
pub proof fn law_search_follows_its_attempt(
    link: LinkLoop,
    attempt: ConnectAttempt,
    connected: bool,
)
    requires
        link.stage == LinkStage::Attempting(attempt),
    ensures
        ({
            let at = |stage: ConnectStage|
                LinkStep::Continue(
                    LinkLoop {
                        addr: link.addr,
                        reconnect_timeout: link.reconnect_timeout,
                        stage: LinkStage::Attempting(
                            ConnectAttempt { addr: attempt.addr, stage },
                        ),
                    },
                );
            let notified = LinkEvent::Attempt(ConnectEvent::Notified);
            let dialed = LinkEvent::Attempt(ConnectEvent::Dialed { connected });
            &&& attempt.stage is Announcing ==> link.after(notified) == at(ConnectStage::Dialing)
            &&& attempt.stage is Dialing ==> link.after(dialed) == at(
                ConnectStage::Reporting { connected },
            )
            &&& attempt.stage is Announcing ==> link.after(dialed) == LinkStep::Unexpected
            &&& attempt.stage is Dialing ==> link.after(notified) == LinkStep::Unexpected
            &&& link.after(LinkEvent::Slept) == LinkStep::Unexpected
        }),
{
}

} // verus!
