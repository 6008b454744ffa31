use modbus_tcp_client::ipv4::{Ipv4Address, SocketAddress};
use modbus_tcp_client::link::{
    ConnectAction, ConnectAttempt, ConnectEvent, ConnectStage, ConnectStep, LinkAction, LinkEvent,
    LinkLoop, LinkStep,
};
use modbus_tcp_client::SocketStateChange;

const PEER: SocketAddress =
    SocketAddress { ip: Ipv4Address { a: 10, b: 1, c: 2, d: 3 }, port: 1502 };

fn go_on(step: LinkStep) -> LinkLoop {
    match step {
        LinkStep::Continue(link) => link,
        other => panic!("the search is over: {:?}", other),
    }
}

fn attempt(mut link: LinkLoop, connected: bool) -> LinkStep {
    let notified = LinkEvent::Attempt(ConnectEvent::Notified);
    assert_eq!(
        link.action(),
        LinkAction::Attempt(ConnectAction::Notify(SocketStateChange::Connecting))
    );
    link = go_on(link.step(notified));
    assert_eq!(link.action(), LinkAction::Attempt(ConnectAction::Connect { addr: PEER }));
    link = go_on(link.step(LinkEvent::Attempt(ConnectEvent::Dialed { connected })));
    let change =
        if connected { SocketStateChange::Connected } else { SocketStateChange::Disconnected };
    assert_eq!(link.action(), LinkAction::Attempt(ConnectAction::Notify(change)));
    link.step(notified)
}

#[test]
fn attempt_announces_dials_and_reports() {
    let start = ConnectAttempt::connect_with_retry(PEER);
    assert_eq!(start.action(), ConnectAction::Notify(SocketStateChange::Connecting));
    let dialing = ConnectAttempt { addr: PEER, stage: ConnectStage::Dialing };
    assert_eq!(start.step(ConnectEvent::Notified), ConnectStep::Continue(dialing));
    assert_eq!(dialing.action(), ConnectAction::Connect { addr: PEER });
    for connected in [true, false] {
        let report = ConnectAttempt { addr: PEER, stage: ConnectStage::Reporting { connected } };
        assert_eq!(
            dialing.step(ConnectEvent::Dialed { connected }),
            ConnectStep::Continue(report)
        );
        assert_eq!(report.step(ConnectEvent::Notified), ConnectStep::Finished { connected });
    }
}

#[test]
fn attempt_does_not_take_foreign_events() {
    let start = ConnectAttempt::connect_with_retry(PEER);
    assert_eq!(start.step(ConnectEvent::Dialed { connected: true }), ConnectStep::Unexpected);
    let dialing = ConnectAttempt { addr: PEER, stage: ConnectStage::Dialing };
    assert_eq!(dialing.step(ConnectEvent::Notified), ConnectStep::Unexpected);
}

#[test]
fn first_search_begins_with_an_attempt() {
    assert_eq!(attempt(LinkLoop::initial_connect(PEER, Some(3)), true), LinkStep::Up);
    assert_eq!(attempt(LinkLoop::initial_connect(PEER, None), true), LinkStep::Up);
}

#[test]
fn single_failed_attempt_is_the_end_without_timeout() {
    assert_eq!(attempt(LinkLoop::initial_connect(PEER, None), false), LinkStep::Down);
}

#[test]
fn failed_attempts_are_repeated_after_a_pause() {
    let mut link = LinkLoop::initial_connect(PEER, Some(3));
    for _ in 0..4 {
        link = go_on(attempt(link, false));
        assert_eq!(link.action(), LinkAction::Sleep { seconds: 3 });
        link = go_on(link.step(LinkEvent::Slept));
    }
    assert_eq!(attempt(link, true), LinkStep::Up);
}

#[test]
fn lost_connection_is_sought_after_a_pause() {
    let link = LinkLoop::reconnect_loop(PEER, 8);
    assert_eq!(link.action(), LinkAction::Sleep { seconds: 8 });
    let link = go_on(link.step(LinkEvent::Slept));
    let link = go_on(attempt(link, false));
    assert_eq!(link.action(), LinkAction::Sleep { seconds: 8 });
}

#[test]
fn search_ends_when_asked_to() {
    assert_eq!(LinkLoop::reconnect_loop(PEER, 8).step(LinkEvent::Shutdown), LinkStep::Down);
    let link = LinkLoop::initial_connect(PEER, Some(1));
    assert_eq!(link.step(LinkEvent::Shutdown), LinkStep::Down);
    let dialing = go_on(link.step(LinkEvent::Attempt(ConnectEvent::Notified)));
    assert_eq!(dialing.step(LinkEvent::Shutdown), LinkStep::Down);
}

#[test]
fn search_does_not_take_foreign_events() {
    let link = LinkLoop::initial_connect(PEER, Some(1));
    assert_eq!(link.step(LinkEvent::Slept), LinkStep::Unexpected);
    let waiting = LinkLoop::reconnect_loop(PEER, 1);
    assert_eq!(waiting.step(LinkEvent::Attempt(ConnectEvent::Notified)), LinkStep::Unexpected);
}

fn play(link: LinkLoop, dialed: &[bool]) -> (Option<LinkStep>, Vec<LinkAction>) {
    let mut link = link;
    let mut asked = vec![link.action()];
    let mut dialed = dialed.iter();
    loop {
        let event = match link.action() {
            LinkAction::Sleep { .. } => LinkEvent::Slept,
            LinkAction::Attempt(ConnectAction::Notify(_)) => {
                LinkEvent::Attempt(ConnectEvent::Notified)
            }
            LinkAction::Attempt(ConnectAction::Connect { .. }) => match dialed.next() {
                Some(connected) => {
                    LinkEvent::Attempt(ConnectEvent::Dialed { connected: *connected })
                }
                None => return (None, asked),
            },
        };
        match link.step(event) {
            LinkStep::Continue(next) => link = next,
            ended => return (Some(ended), asked),
        }
        asked.push(link.action());
    }
}

fn pauses_and_dials(asked: &[LinkAction]) -> (usize, usize) {
    let pauses = asked.iter().filter(|action| **action == LinkAction::Sleep { seconds: 4 });
    let dial = LinkAction::Attempt(ConnectAction::Connect { addr: PEER });
    let dials = asked.iter().filter(|action| **action == dial);
    (pauses.count(), dials.count())
}

#[test]
fn search_ends_with_the_first_dial_that_succeeds() {
    let (ended, asked) = play(LinkLoop::reconnect_loop(PEER, 4), &[false, false, true, false]);
    assert_eq!(ended, Some(LinkStep::Up));
    assert_eq!(pauses_and_dials(&asked), (3, 3));
    let (ended, asked) =
        play(LinkLoop::initial_connect(PEER, Some(4)), &[false, false, true, false]);
    assert_eq!(ended, Some(LinkStep::Up));
    assert_eq!(pauses_and_dials(&asked), (2, 3));
}

#[test]
fn search_with_a_timeout_does_not_give_up() {
    let (ended, asked) = play(LinkLoop::reconnect_loop(PEER, 4), &[false; 50]);
    assert_eq!(ended, None);
    assert_eq!(pauses_and_dials(&asked), (51, 51));
}

#[test]
fn search_without_a_timeout_gives_up_after_one_dial() {
    let (ended, asked) = play(LinkLoop::initial_connect(PEER, None), &[false, true]);
    assert_eq!(ended, Some(LinkStep::Down));
    assert_eq!(pauses_and_dials(&asked), (0, 1));
}
