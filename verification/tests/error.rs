use modbus_tcp_client::{ModbusTCPError, NoUnit};

#[test]
fn messages_read_as_documented() {
    assert_eq!(ModbusTCPError::InvalidIpAddr.message(), "Invalid Ip address");
    assert_eq!(ModbusTCPError::InvalidPort.message(), "Invalid Port");
    assert_eq!(ModbusTCPError::AlreadySubscribed.message(), "Already subscribed");
    assert_eq!(
        ModbusTCPError::ConnectionFailed("Timeout".to_string()).message(),
        "Connection failed: Timeout"
    );
    assert_eq!(ModbusTCPError::NotConnected.message(), "Not connected");
    assert_eq!(
        ModbusTCPError::ModbusUnitError("illegal function".to_string()).message(),
        "illegal function"
    );
    assert_eq!(
        ModbusTCPError::ModbusClientError("worker gone".to_string()).message(),
        "Transport error: worker gone"
    );
}

#[test]
fn errors_stay_the_same_beside_a_unit() {
    let text = |error: ModbusTCPError| error.beside_unit().map(|same| same.message());
    assert_eq!(text(ModbusTCPError::InvalidIpAddr), Some("Invalid Ip address".to_string()));
    assert_eq!(text(ModbusTCPError::InvalidPort), Some("Invalid Port".to_string()));
    assert_eq!(text(ModbusTCPError::AlreadySubscribed), Some("Already subscribed".to_string()));
    assert_eq!(
        text(ModbusTCPError::ConnectionFailed("Write timeout".to_string())),
        Some("Connection failed: Write timeout".to_string())
    );
    assert_eq!(text(ModbusTCPError::NotConnected), Some("Not connected".to_string()));
    assert_eq!(
        text(ModbusTCPError::ModbusClientError("lost".to_string())),
        Some("Transport error: lost".to_string())
    );
    assert_eq!(text(ModbusTCPError::ModbusUnitError(NoUnit)), None);
}
