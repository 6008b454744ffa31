use modbus_tcp_client::client::{request_result, Delivery, ModbusTCPClient};
use modbus_tcp_client::ipv4::{Ipv4Address, SocketAddress};
use modbus_tcp_client::worker::WorkerConfig;
use modbus_tcp_client::{ModbusTCPError, SocketStateChange};

fn client() -> ModbusTCPClient {
    let mut builder = ModbusTCPClient::builder();
    builder.ip("127.0.0.1").port(502);
    builder.build().unwrap_or_else(|_| panic!("no client"))
}

#[test]
fn nothing_to_subscribe_to_before_connecting() {
    assert!(matches!(client().subscribe(), Err(ModbusTCPError::AlreadySubscribed)));
}

#[test]
fn one_subscription_per_connection() {
    let mut client = client();
    for _ in 0..2 {
        let setup = client.connect();
        let mut changes = client.subscribe().unwrap_or_else(|_| panic!("no receiver"));
        assert!(matches!(client.subscribe(), Err(ModbusTCPError::AlreadySubscribed)));
        assert!(setup.state_tx.try_send(SocketStateChange::Connecting).is_ok());
        assert_eq!(changes.try_recv().ok(), Some(SocketStateChange::Connecting));
    }
}

#[test]
fn channels_hold_one_message() {
    let mut client = client();
    let setup = client.connect();
    assert_eq!(setup.state_tx.max_capacity(), 1);
    assert_eq!(setup.cmd_rx.max_capacity(), 1);
    assert_eq!(setup.shutdown_rx.max_capacity(), 1);
    assert!(setup.state_tx.try_send(SocketStateChange::Connecting).is_ok());
    assert!(setup.state_tx.try_send(SocketStateChange::Connected).is_err());
}

#[test]
fn request_without_a_connection_is_turned_down() {
    assert!(matches!(client().send_request(vec![1]), Err(ModbusTCPError::NotConnected)));
}

#[test]
fn request_reaches_the_worker_and_its_answer_comes_back() {
    let mut client = client();
    let mut setup = client.connect();
    let (to, command, mut answer) =
        client.send_request(vec![1, 2, 3]).unwrap_or_else(|_| panic!("not connected"));
    assert!(to.try_send(command).is_ok());
    let command = setup.cmd_rx.try_recv().unwrap_or_else(|_| panic!("no command"));
    assert_eq!(command.packet, vec![1, 2, 3]);
    assert!(command.reply.send(Ok(vec![9])).is_ok());
    match answer.try_recv() {
        Ok(Ok(response)) => assert_eq!(response, vec![9]),
        _ => panic!("no answer"),
    }
}

#[test]
fn answers_pass_through_and_missing_ones_fail_in_transport() {
    assert_eq!(request_result(Delivery::Answered(Ok(vec![5]))).ok(), Some(vec![5]));
    let answered = request_result(Delivery::Answered(Err(ModbusTCPError::NotConnected)));
    assert!(matches!(answered, Err(ModbusTCPError::NotConnected)));
    for delivery in [Delivery::Refused, Delivery::Dropped] {
        match request_result(delivery) {
            Err(ModbusTCPError::ModbusClientError(reason)) => assert_eq!(reason, "Transport error"),
            other => panic!("unexpected result {:?}", other),
        }
    }
}

#[test]
fn disconnecting_hands_out_what_stops_the_worker() {
    let runtime = tokio::runtime::Builder::new_current_thread().build();
    let runtime = runtime.unwrap_or_else(|_| panic!("no runtime"));
    let mut client = client();
    let mut setup = client.connect();
    client.attach_worker(runtime.spawn(async {}));

    let teardown = client.disconnect();
    assert!(teardown.worker_handle.is_some());
    let stop = teardown.shutdown_tx.unwrap_or_else(|| panic!("no sender"));
    assert!(stop.try_send(()).is_ok());
    assert_eq!(setup.shutdown_rx.try_recv().ok(), Some(()));

    let again = client.disconnect();
    assert!(again.shutdown_tx.is_none());
    assert!(again.worker_handle.is_none());
    assert!(client.send_request(vec![1]).is_ok());
    assert!(client.subscribe().is_ok());
}

#[test]
fn connecting_again_lets_go_of_the_earlier_worker() {
    let mut client = client();
    let mut earlier = client.connect();
    let _later = client.connect();
    assert!(matches!(
        earlier.shutdown_rx.try_recv(),
        Err(tokio::sync::mpsc::error::TryRecvError::Disconnected)
    ));
    assert!(earlier.state_tx.is_closed());
}

#[test]
fn client_that_never_connected_has_nothing_to_stop() {
    let mut client = client();
    let teardown = client.disconnect();
    assert!(teardown.shutdown_tx.is_none());
    assert!(teardown.worker_handle.is_none());
}

#[test]
fn every_worker_is_told_the_same_peer_and_settings() {
    let mut builder = ModbusTCPClient::builder();
    builder.ip("10.20.30.40").port(1502).retry_count(3).retry_timeout(75).reconnect_timeout(9);
    let mut client = builder.build().unwrap_or_else(|_| panic!("no client"));
    for _ in 0..3 {
        let setup = client.connect();
        assert_eq!(
            setup.addr,
            SocketAddress { ip: Ipv4Address { a: 10, b: 20, c: 30, d: 40 }, port: 1502 }
        );
        assert_eq!(
            setup.config,
            WorkerConfig { reconnect_timeout: Some(9), retry_count: 3, retry_interval: 75 }
        );
        assert!(client.subscribe().is_ok());
        client.disconnect();
    }
}

#[test]
fn subscription_outlives_a_disconnection_but_not_a_connection() {
    let mut client = client();
    client.connect();
    client.disconnect();
    assert!(client.subscribe().is_ok());
    assert!(matches!(client.subscribe(), Err(ModbusTCPError::AlreadySubscribed)));
    client.connect();
    let setup = client.connect();
    let mut changes = client.subscribe().unwrap_or_else(|_| panic!("no receiver"));
    assert!(setup.state_tx.try_send(SocketStateChange::Connected).is_ok());
    assert_eq!(changes.try_recv().ok(), Some(SocketStateChange::Connected));
    assert!(matches!(client.subscribe(), Err(ModbusTCPError::AlreadySubscribed)));
}

#[test]
fn requests_go_to_the_latest_worker_even_after_disconnecting() {
    let mut client = client();
    let mut earlier = client.connect();
    let mut later = client.connect();
    client.disconnect();
    let (to, command, _) =
        client.send_request(vec![7]).unwrap_or_else(|_| panic!("not connected"));
    assert!(to.try_send(command).is_ok());
    assert!(earlier.cmd_rx.try_recv().is_err());
    assert!(later.cmd_rx.try_recv().is_ok());
}

#[test]
fn task_attached_last_is_awaited_once() {
    let runtime = tokio::runtime::Builder::new_current_thread().build();
    let runtime = runtime.unwrap_or_else(|_| panic!("no runtime"));
    let mut client = client();
    client.connect();
    client.attach_worker(runtime.spawn(async {}));
    let later = runtime.spawn(async {});
    let id = later.id();
    client.attach_worker(later);
    client.connect();
    let handle = client.disconnect().worker_handle;
    assert_eq!(handle.map(|handle| handle.id()), Some(id));
    assert!(client.disconnect().worker_handle.is_none());

    let again = runtime.spawn(async {});
    let id = again.id();
    client.attach_worker(again);
    assert!(client.subscribe().is_ok());
    let handle = client.disconnect().worker_handle;
    assert_eq!(handle.map(|handle| handle.id()), Some(id));
}
