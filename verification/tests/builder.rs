use modbus_tcp_client::ipv4::{parse_ipv4, Ipv4Address, SocketAddress};
use modbus_tcp_client::worker::WorkerConfig;
use modbus_tcp_client::{ModbusTCPClient, ModbusTCPClientBuilder, ModbusTCPError};

fn octets(a: u8, b: u8, c: u8, d: u8) -> Option<Ipv4Address> {
    Some(Ipv4Address { a, b, c, d })
}

#[test]
fn addresses_in_dotted_decimal_notation_are_read() {
    assert_eq!(parse_ipv4("0.0.0.0"), octets(0, 0, 0, 0));
    assert_eq!(parse_ipv4("127.0.0.1"), octets(127, 0, 0, 1));
    assert_eq!(parse_ipv4("192.168.10.99"), octets(192, 168, 10, 99));
    assert_eq!(parse_ipv4("255.255.255.255"), octets(255, 255, 255, 255));
}

#[test]
fn anything_else_is_no_address() {
    for text in [
        "", ".", "...", "1.2.3", "1.2.3.", ".1.2.3", "1.2.3.4.5", "1.2.3.4.", "1.2.3.256", "01.2.3.4",
        "1.2.3.00", "1.2.3.0004", " 1.2.3.4", "1.2.3.4 ", "1,2,3,4", "1.2.3.-4", "0x1.2.3.4",
        "a.b.c.d", "localhost", "::1", "1.2.3.\u{0664}", "1\u{00e9}.2.3.4", "999.1.1.1", "1..2.3",
        "1.2.3.4:502",
    ] {
        assert_eq!(parse_ipv4(text), None, "{}", text);
    }
}

#[test]
fn every_octet_value_is_read_in_every_place() {
    for n in 0..=255u8 {
        assert_eq!(parse_ipv4(&format!("{}.0.0.0", n)), octets(n, 0, 0, 0));
        assert_eq!(parse_ipv4(&format!("1.{}.0.0", n)), octets(1, n, 0, 0));
        assert_eq!(parse_ipv4(&format!("1.2.{}.0", n)), octets(1, 2, n, 0));
        assert_eq!(parse_ipv4(&format!("1.2.3.{}", n)), octets(1, 2, 3, n));
    }
    for n in 256..1100 {
        assert_eq!(parse_ipv4(&format!("1.2.3.{}", n)), None);
    }
}

#[test]
fn defaults_apply_where_nothing_was_set() {
    let mut builder = ModbusTCPClient::builder();
    builder.ip("192.168.0.17").port(502);
    let setup = builder.build().unwrap_or_else(|_| panic!("no client")).connect();
    assert_eq!(
        setup.addr,
        SocketAddress { ip: Ipv4Address { a: 192, b: 168, c: 0, d: 17 }, port: 502 }
    );
    assert_eq!(
        setup.config,
        WorkerConfig { reconnect_timeout: None, retry_count: 1, retry_interval: 100 }
    );
}

#[test]
fn settings_reach_the_client() {
    let mut builder = ModbusTCPClientBuilder::new();
    builder.retry_count(4).retry_timeout(250).reconnect_timeout(7).port(1502u16).ip("10.0.0.1");
    let setup = builder.build().unwrap_or_else(|_| panic!("no client")).connect();
    assert_eq!(setup.addr.port, 1502);
    assert_eq!(
        setup.config,
        WorkerConfig { reconnect_timeout: Some(7), retry_count: 4, retry_interval: 250 }
    );
}

#[test]
fn missing_address_is_reported_first() {
    let nothing = ModbusTCPClientBuilder::new().build();
    assert!(matches!(nothing, Err(ModbusTCPError::InvalidIpAddr)));

    let mut only_port = ModbusTCPClientBuilder::new();
    only_port.port(502);
    assert!(matches!(only_port.build(), Err(ModbusTCPError::InvalidIpAddr)));
}

#[test]
fn missing_port_is_reported() {
    let mut only_ip = ModbusTCPClientBuilder::new();
    only_ip.ip("127.0.0.1");
    assert!(matches!(only_ip.build(), Err(ModbusTCPError::InvalidPort)));
}

#[test]
fn invalid_settings_are_passed_over() {
    let mut builder = ModbusTCPClientBuilder::new();
    builder.ip("127.0.0.1").ip("300.0.0.1").ip("example.org");
    builder.port(502).port(70000i64).port(-1i32).port(u128::MAX);
    let setup = builder.build().unwrap_or_else(|_| panic!("no client")).connect();
    assert_eq!(
        setup.addr,
        SocketAddress { ip: Ipv4Address { a: 127, b: 0, c: 0, d: 1 }, port: 502 }
    );

    let mut invalid = ModbusTCPClientBuilder::new();
    invalid.ip("127.0.0").port(502);
    assert!(matches!(invalid.build(), Err(ModbusTCPError::InvalidIpAddr)));

    let mut no_port = ModbusTCPClientBuilder::new();
    no_port.ip("127.0.0.1").port(65536u32);
    assert!(matches!(no_port.build(), Err(ModbusTCPError::InvalidPort)));
}

#[test]
fn last_valid_setting_counts() {
    let mut builder = ModbusTCPClientBuilder::new();
    builder.port(1u8).ip("1.1.1.1").port(65535u32).ip("2.2.2.2").retry_count(9).retry_count(0);
    let setup = builder.build().unwrap_or_else(|_| panic!("no client")).connect();
    assert_eq!(
        setup.addr,
        SocketAddress { ip: Ipv4Address { a: 2, b: 2, c: 2, d: 2 }, port: 65535 }
    );
    assert_eq!(setup.config.retry_count, 0);
}

#[test]
fn order_of_setters_does_not_matter() {
    let mut one = ModbusTCPClientBuilder::new();
    one.ip("1.1.1.1").ip("10.0.0.7").ip("nowhere").port(80).port(1502).port(-5);
    one.reconnect_timeout(1).reconnect_timeout(6).retry_timeout(20).retry_timeout(40);
    one.retry_count(9).retry_count(2);
    let mut other = ModbusTCPClientBuilder::new();
    other.retry_count(9).port(80).retry_timeout(20).ip("1.1.1.1").reconnect_timeout(1).port(1502);
    other.ip("10.0.0.7").reconnect_timeout(6).port(-5).retry_count(2).ip("nowhere");
    other.retry_timeout(40);
    for builder in [one, other] {
        let setup = builder.build().unwrap_or_else(|_| panic!("no client")).connect();
        assert_eq!(
            setup.addr,
            SocketAddress { ip: Ipv4Address { a: 10, b: 0, c: 0, d: 7 }, port: 1502 }
        );
        assert_eq!(
            setup.config,
            WorkerConfig { reconnect_timeout: Some(6), retry_count: 2, retry_interval: 40 }
        );
    }
}
