use modbus_tcp_client::command::{CommandResult, ReadOutcome, WriteOutcome};
use modbus_tcp_client::ipv4::{Ipv4Address, SocketAddress};
use modbus_tcp_client::link::{ConnectAction, ConnectEvent, LinkAction, LinkEvent};
use modbus_tcp_client::worker::{
    check_socket_alive, ModbusCommand, SocketProbe, Wakeup, Worker, WorkerAction, WorkerConfig,
    WorkerEvent,
};
use modbus_tcp_client::{ModbusTCPError, SocketStateChange};
use tokio::sync::oneshot;

const PEER: SocketAddress =
    SocketAddress { ip: Ipv4Address { a: 192, b: 168, c: 1, d: 5 }, port: 502 };

fn config(reconnect_timeout: Option<u64>, retry_count: usize) -> WorkerConfig {
    WorkerConfig { reconnect_timeout, retry_count, retry_interval: 250 }
}

fn notified() -> WorkerEvent {
    WorkerEvent::Link(LinkEvent::Attempt(ConnectEvent::Notified))
}

fn dialed(connected: bool) -> WorkerEvent {
    WorkerEvent::Link(LinkEvent::Attempt(ConnectEvent::Dialed { connected }))
}

fn idle_worker(config: WorkerConfig) -> Worker {
    let (mut worker, _) = Worker::worker_task(PEER, config);
    worker.step(notified());
    worker.step(dialed(true));
    assert!(!worker.holds_stream());
    assert!(matches!(worker.step(notified()), WorkerAction::Select { check_millis: 5000 }));
    assert!(worker.holds_stream());
    worker
}

fn command(packet: Vec<u8>) -> (WorkerEvent, oneshot::Receiver<CommandResult>) {
    let (reply, answer) = oneshot::channel();
    (WorkerEvent::Woke(Wakeup::Command(ModbusCommand { packet, reply })), answer)
}

fn probed(read_closed: bool) -> WorkerEvent {
    WorkerEvent::Probed(SocketProbe::Ready { read_closed })
}

fn change(action: &WorkerAction) -> Option<SocketStateChange> {
    match action {
        WorkerAction::Link(LinkAction::Attempt(ConnectAction::Notify(change))) => Some(*change),
        WorkerAction::Notify(change) => Some(*change),
        _ => None,
    }
}

#[test]
fn only_a_closed_peer_means_a_dead_socket() {
    assert!(!check_socket_alive(SocketProbe::Ready { read_closed: true }));
    assert!(check_socket_alive(SocketProbe::Ready { read_closed: false }));
    assert!(check_socket_alive(SocketProbe::TimedOut));
    assert!(check_socket_alive(SocketProbe::Failed));
}

#[test]
fn worker_connects_before_it_waits_for_commands() {
    let (mut worker, action) = Worker::worker_task(PEER, config(None, 1));
    assert_eq!(change(&action), Some(SocketStateChange::Connecting));
    let action = worker.step(notified());
    assert!(matches!(
        action,
        WorkerAction::Link(LinkAction::Attempt(ConnectAction::Connect { addr: PEER }))
    ));
    let action = worker.step(dialed(true));
    assert_eq!(change(&action), Some(SocketStateChange::Connected));
    assert!(matches!(worker.step(notified()), WorkerAction::Select { check_millis: 5000 }));
}

#[test]
fn worker_without_timeout_ends_after_a_failed_attempt() {
    let (mut worker, _) = Worker::worker_task(PEER, config(None, 1));
    worker.step(notified());
    assert_eq!(change(&worker.step(dialed(false))), Some(SocketStateChange::Disconnected));
    assert!(matches!(worker.step(notified()), WorkerAction::Stop));
    assert!(!worker.holds_stream());
}

#[test]
fn worker_with_timeout_tries_until_it_succeeds() {
    let (mut worker, _) = Worker::worker_task(PEER, config(Some(6), 1));
    for _ in 0..3 {
        worker.step(notified());
        worker.step(dialed(false));
        let action = worker.step(notified());
        assert!(matches!(action, WorkerAction::Link(LinkAction::Sleep { seconds: 6 })));
        let action = worker.step(WorkerEvent::Link(LinkEvent::Slept));
        assert_eq!(change(&action), Some(SocketStateChange::Connecting));
    }
    worker.step(notified());
    worker.step(dialed(true));
    assert!(matches!(worker.step(notified()), WorkerAction::Select { check_millis: 5000 }));
}

#[test]
fn command_is_written_read_and_answered() {
    let mut worker = idle_worker(config(None, 1));
    let (event, mut answer) = command(vec![1, 2]);
    match worker.step(event) {
        WorkerAction::Write { packet, timeout_millis } => {
            assert_eq!(packet, vec![1, 2]);
            assert_eq!(timeout_millis, 1000);
        }
        _ => panic!("no write"),
    }
    let action = worker.step(WorkerEvent::Written(WriteOutcome::Written));
    assert!(matches!(action, WorkerAction::Read { capacity: 1024, timeout_millis: 250 }));
    let outcome = ReadOutcome::Received { buffer: vec![3, 4, 0], count: 2 };
    match worker.step(WorkerEvent::Received(outcome)) {
        WorkerAction::Reply { reply, result } => {
            assert!(reply.send(result).is_ok());
        }
        _ => panic!("no reply"),
    }
    match answer.try_recv() {
        Ok(Ok(response)) => assert_eq!(response, vec![3, 4]),
        _ => panic!("no answer"),
    }
    let action = worker.step(WorkerEvent::Delivered);
    assert!(matches!(action, WorkerAction::Select { check_millis: 5000 }));
}

#[test]
fn failed_command_is_repeated_and_keeps_the_connection() {
    let mut worker = idle_worker(config(Some(1), 1));
    let (event, _answer) = command(vec![5]);
    worker.step(event);
    worker.step(WorkerEvent::Written(WriteOutcome::Written));
    let action = worker.step(WorkerEvent::Received(ReadOutcome::TimedOut));
    assert!(matches!(action, WorkerAction::Write { packet, .. } if packet == vec![5]));
    let action = worker.step(WorkerEvent::Written(WriteOutcome::Failed("gone".to_string())));
    match action {
        WorkerAction::Reply { result: Err(ModbusTCPError::ConnectionFailed(reason)), .. } => {
            assert_eq!(reason, "gone")
        }
        _ => panic!("no reply"),
    }
    let action = worker.step(WorkerEvent::Delivered);
    assert!(matches!(action, WorkerAction::Select { check_millis: 5000 }));
    assert!(worker.holds_stream());
}

#[test]
fn live_connection_is_kept() {
    let mut worker = idle_worker(config(None, 1));
    let action = worker.step(WorkerEvent::Woke(Wakeup::Tick));
    assert!(matches!(action, WorkerAction::Probe { timeout_millis: 100 }));
    assert!(matches!(worker.step(probed(false)), WorkerAction::Select { check_millis: 5000 }));
    worker.step(WorkerEvent::Woke(Wakeup::Tick));
    let action = worker.step(WorkerEvent::Probed(SocketProbe::TimedOut));
    assert!(matches!(action, WorkerAction::Select { check_millis: 5000 }));
}

#[test]
fn dead_connection_ends_a_worker_without_timeout() {
    let mut worker = idle_worker(config(None, 1));
    worker.step(WorkerEvent::Woke(Wakeup::Tick));
    let action = worker.step(probed(true));
    assert_eq!(change(&action), Some(SocketStateChange::Disconnected));
    assert!(matches!(worker.step(WorkerEvent::Delivered), WorkerAction::Stop));
    assert!(!worker.holds_stream());
}

#[test]
fn dead_connection_is_replaced_by_a_worker_with_timeout() {
    let mut worker = idle_worker(config(Some(4), 1));
    worker.step(WorkerEvent::Woke(Wakeup::Tick));
    worker.step(probed(true));
    let action = worker.step(WorkerEvent::Delivered);
    assert!(matches!(action, WorkerAction::Link(LinkAction::Sleep { seconds: 4 })));
    assert!(!worker.holds_stream());
    worker.step(WorkerEvent::Link(LinkEvent::Slept));
    worker.step(notified());
    worker.step(dialed(true));
    assert!(matches!(worker.step(notified()), WorkerAction::Select { check_millis: 5000 }));
    assert!(worker.holds_stream());
    let (event, _answer) = command(vec![1]);
    assert!(matches!(worker.step(event), WorkerAction::Write { .. }));
}

#[test]
fn subscribers_hear_a_consistent_story() {
    let (mut worker, first) = Worker::worker_task(PEER, config(Some(1), 0));
    let mut heard: Vec<SocketStateChange> = change(&first).into_iter().collect();
    for event in [
        notified(),
        dialed(false),
        notified(),
        WorkerEvent::Link(LinkEvent::Slept),
        notified(),
        dialed(true),
        notified(),
        WorkerEvent::Woke(Wakeup::Tick),
        probed(true),
        WorkerEvent::Delivered,
        WorkerEvent::Link(LinkEvent::Slept),
        notified(),
        dialed(true),
    ] {
        heard.extend(change(&worker.step(event)));
    }
    assert_eq!(
        heard,
        vec![
            SocketStateChange::Connecting,
            SocketStateChange::Disconnected,
            SocketStateChange::Connecting,
            SocketStateChange::Connected,
            SocketStateChange::Disconnected,
            SocketStateChange::Connecting,
            SocketStateChange::Connected,
        ]
    );
}

#[test]
fn worker_ends_when_asked_to() {
    let mut worker = idle_worker(config(Some(1), 1));
    assert!(matches!(worker.step(WorkerEvent::Woke(Wakeup::Shutdown)), WorkerAction::Stop));
    let (mut worker, _) = Worker::worker_task(PEER, config(Some(1), 1));
    assert!(matches!(worker.step(WorkerEvent::Link(LinkEvent::Shutdown)), WorkerAction::Stop));
    worker.step(WorkerEvent::Link(LinkEvent::Slept));
    let action = worker.step(WorkerEvent::Woke(Wakeup::Tick));
    assert!(matches!(
        action,
        WorkerAction::Unexpected(WorkerEvent::Woke(Wakeup::Tick))
    ));
}

#[test]
fn foreign_events_change_nothing() {
    let mut worker = idle_worker(config(None, 1));
    let action = worker.step(WorkerEvent::Delivered);
    assert!(matches!(action, WorkerAction::Unexpected(WorkerEvent::Delivered)));
    let (event, _answer) = command(vec![8]);
    assert!(matches!(worker.step(event), WorkerAction::Write { .. }));
    let (event, _second) = command(vec![9]);
    match worker.step(event) {
        WorkerAction::Unexpected(WorkerEvent::Woke(Wakeup::Command(command))) => {
            assert_eq!(command.packet, vec![9])
        }
        _ => panic!("the command was taken"),
    }
    let action = worker.step(WorkerEvent::Written(WriteOutcome::TimedOut));
    assert!(matches!(action, WorkerAction::Write { packet, .. } if packet == vec![8]));
}

#[test]
fn commands_are_answered_in_order_each_to_its_own_sender() {
    let mut worker = idle_worker(config(None, 0));
    let mut answers = Vec::new();
    for n in 1..=3u8 {
        let (event, answer) = command(vec![n]);
        answers.push(answer);
        assert!(matches!(worker.step(event), WorkerAction::Write { packet, .. } if packet == vec![n]));
        worker.step(WorkerEvent::Written(WriteOutcome::Written));
        let outcome = ReadOutcome::Received { buffer: vec![10 + n], count: 1 };
        match worker.step(WorkerEvent::Received(outcome)) {
            WorkerAction::Reply { reply, result } => assert!(reply.send(result).is_ok()),
            _ => panic!("no reply"),
        }
        let action = worker.step(WorkerEvent::Delivered);
        assert!(matches!(action, WorkerAction::Select { check_millis: 5000 }));
    }
    for (n, answer) in (1..=3u8).zip(answers.iter_mut()) {
        match answer.try_recv() {
            Ok(Ok(response)) => assert_eq!(response, vec![10 + n]),
            _ => panic!("no answer"),
        }
    }
}

#[test]
fn dials_and_pauses_alternate() {
    let (mut worker, mut action) = Worker::worker_task(PEER, config(Some(2), 0));
    let mut order = String::new();
    for _ in 0..20 {
        let event = match action {
            WorkerAction::Link(LinkAction::Attempt(ConnectAction::Notify(_))) => notified(),
            WorkerAction::Link(LinkAction::Attempt(ConnectAction::Connect { addr })) => {
                assert_eq!(addr, PEER);
                order.push('d');
                dialed(order.len() == 5)
            }
            WorkerAction::Link(LinkAction::Sleep { seconds }) => {
                assert_eq!(seconds, 2);
                order.push('p');
                WorkerEvent::Link(LinkEvent::Slept)
            }
            WorkerAction::Select { .. } => WorkerEvent::Woke(Wakeup::Tick),
            WorkerAction::Probe { .. } => probed(true),
            WorkerAction::Notify(_) => WorkerEvent::Delivered,
            _ => panic!("unexpected action"),
        };
        action = worker.step(event);
    }
    assert_eq!(order, "dpdpdpdp"[..order.len()]);
    assert!(order.len() >= 6);
}

#[test]
fn subscribers_hear_of_one_attempt_without_a_timeout() {
    let (mut worker, mut action) = Worker::worker_task(PEER, config(None, 0));
    let mut heard = Vec::new();
    let mut checks = 0;
    loop {
        if let Some(heard_now) = change(&action) {
            heard.push(heard_now);
        }
        let event = match action {
            WorkerAction::Link(LinkAction::Attempt(ConnectAction::Notify(_))) => notified(),
            WorkerAction::Link(LinkAction::Attempt(ConnectAction::Connect { .. })) => dialed(true),
            WorkerAction::Select { .. } => WorkerEvent::Woke(Wakeup::Tick),
            WorkerAction::Probe { timeout_millis } => {
                assert_eq!(timeout_millis, 100);
                checks += 1;
                probed(checks == 4)
            }
            WorkerAction::Notify(_) => WorkerEvent::Delivered,
            WorkerAction::Stop => break,
            _ => panic!("unexpected action"),
        };
        action = worker.step(event);
    }
    assert_eq!(checks, 4);
    assert_eq!(
        heard,
        vec![
            SocketStateChange::Connecting,
            SocketStateChange::Connected,
            SocketStateChange::Disconnected
        ]
    );
}

#[test]
fn every_write_carries_the_packet_of_the_command_taken_last() {
    let mut worker = idle_worker(config(Some(1), 2));
    for n in 1..=3u8 {
        let (event, mut answer) = command(vec![n, n]);
        let mut action = worker.step(event);
        for failure in [WriteOutcome::TimedOut, WriteOutcome::Failed("broken".to_string())] {
            assert!(matches!(&action, WorkerAction::Write { packet, .. } if *packet == vec![n, n]));
            action = worker.step(WorkerEvent::Written(failure));
        }
        assert!(matches!(&action, WorkerAction::Write { packet, .. } if *packet == vec![n, n]));
        worker.step(WorkerEvent::Written(WriteOutcome::Written));
        let outcome = ReadOutcome::Received { buffer: vec![20 + n, 99], count: 1 };
        match worker.step(WorkerEvent::Received(outcome)) {
            WorkerAction::Reply { reply, result } => assert!(reply.send(result).is_ok()),
            _ => panic!("no reply"),
        }
        assert!(matches!(answer.try_recv(), Ok(Ok(response)) if response == vec![20 + n]));
        worker.step(WorkerEvent::Delivered);

        worker.step(WorkerEvent::Woke(Wakeup::Tick));
        worker.step(probed(true));
        worker.step(WorkerEvent::Delivered);
        worker.step(WorkerEvent::Link(LinkEvent::Slept));
        worker.step(notified());
        worker.step(dialed(true));
        worker.step(notified());
        assert!(worker.holds_stream());
    }
}
