//! The errors a caller of the client can see.

use vstd::prelude::*;
use vstd::string::*;

verus! {

/// Stands for what a unit reports where no unit takes part.
#[derive(Debug, Clone, Copy, PartialEq, Eq, Structural)]
pub struct NoUnit;

/// Everything that can go wrong between configuring a client and reading a response. `E` is what a
/// Modbus unit reports; [`NoUnit`] says that none takes part.
#[derive(Debug)]
pub enum ModbusTCPError<E = NoUnit> {
    /// No usable address was given.
    InvalidIpAddr,
    /// No usable port was given.
    InvalidPort,
    /// The receiver of state changes is not there to be handed out.
    AlreadySubscribed,
    /// A command got no response from the peer, for the reason given.
    ConnectionFailed(String),
    /// There is no worker, or the worker has no connection.
    NotConnected,
    /// The Modbus unit could not build a request or make sense of a response.
    ModbusUnitError(E),
    /// A command got lost on its way to the worker or back.
    ModbusClientError(String),
}

/// [`ModbusTCPError`] with every text replaced by its characters.
pub enum ErrorView<E = NoUnit> {
    InvalidIpAddr,
    InvalidPort,
    AlreadySubscribed,
    ConnectionFailed(Seq<char>),
    NotConnected,
    ModbusUnitError(E),
    ModbusClientError(Seq<char>),
}

impl<E> View for ModbusTCPError<E> {
    type V = ErrorView<E>;

    open spec fn view(&self) -> ErrorView<E> {
        match self {
            ModbusTCPError::InvalidIpAddr => ErrorView::InvalidIpAddr,
            ModbusTCPError::InvalidPort => ErrorView::InvalidPort,
            ModbusTCPError::AlreadySubscribed => ErrorView::AlreadySubscribed,
            ModbusTCPError::ConnectionFailed(reason) => ErrorView::ConnectionFailed(reason@),
            ModbusTCPError::NotConnected => ErrorView::NotConnected,
            ModbusTCPError::ModbusUnitError(error) => ErrorView::ModbusUnitError(*error),
            ModbusTCPError::ModbusClientError(reason) => ErrorView::ModbusClientError(reason@),
        }
    }
}

impl ErrorView<String> {
    /// The sentence shown to a person, where the unit's error is given by its own.
    pub open spec fn message(self) -> Seq<char> {
        match self {
            ErrorView::InvalidIpAddr => "Invalid Ip address"@,
            ErrorView::InvalidPort => "Invalid Port"@,
            ErrorView::AlreadySubscribed => "Already subscribed"@,
            ErrorView::ConnectionFailed(reason) => "Connection failed: "@ + reason,
            ErrorView::NotConnected => "Not connected"@,
            ErrorView::ModbusUnitError(text) => text@,
            ErrorView::ModbusClientError(reason) => "Transport error: "@ + reason,
        }
    }
}

impl ErrorView {
    /// The same error where a unit takes part, unless it is a unit's.
    pub open spec fn beside_unit<E>(self) -> Option<ErrorView<E>> {
        match self {
            ErrorView::InvalidIpAddr => Some(ErrorView::InvalidIpAddr),
            ErrorView::InvalidPort => Some(ErrorView::InvalidPort),
            ErrorView::AlreadySubscribed => Some(ErrorView::AlreadySubscribed),
            ErrorView::ConnectionFailed(reason) => Some(ErrorView::ConnectionFailed(reason)),
            ErrorView::NotConnected => Some(ErrorView::NotConnected),
            ErrorView::ModbusUnitError(NoUnit) => None,
            ErrorView::ModbusClientError(reason) => Some(ErrorView::ModbusClientError(reason)),
        }
    }
}

impl ModbusTCPError<String> {
    /// The sentence shown to a person, where the unit's error is given by its own.
    pub fn message(&self) -> (text: String)
        ensures
            text@ == self@.message(),
    {
        match self {
            ModbusTCPError::InvalidIpAddr => "Invalid Ip address".to_string(),
            ModbusTCPError::InvalidPort => "Invalid Port".to_string(),
            ModbusTCPError::AlreadySubscribed => "Already subscribed".to_string(),
            ModbusTCPError::ConnectionFailed(reason) => {
                "Connection failed: ".to_string().concat(reason.as_str())
            },
            ModbusTCPError::NotConnected => "Not connected".to_string(),
            ModbusTCPError::ModbusUnitError(text) => text.clone(),
            ModbusTCPError::ModbusClientError(reason) => {
                "Transport error: ".to_string().concat(reason.as_str())
            },
        }
    }
}

impl ModbusTCPError {
    /// The same error where a unit takes part, unless it is a unit's.
    pub fn beside_unit<E>(self) -> (error: Option<ModbusTCPError<E>>)
        ensures
            match self@.beside_unit::<E>() {
                Some(same) => error matches Some(error) && error@ == same,
                None => error is None,
            },
    {
        match self {
            ModbusTCPError::InvalidIpAddr => Some(ModbusTCPError::InvalidIpAddr),
            ModbusTCPError::InvalidPort => Some(ModbusTCPError::InvalidPort),
            ModbusTCPError::AlreadySubscribed => Some(ModbusTCPError::AlreadySubscribed),
            ModbusTCPError::ConnectionFailed(reason) => Some(
                ModbusTCPError::ConnectionFailed(reason),
            ),
            ModbusTCPError::NotConnected => Some(ModbusTCPError::NotConnected),
            ModbusTCPError::ModbusUnitError(NoUnit) => None,
            ModbusTCPError::ModbusClientError(reason) => Some(
                ModbusTCPError::ModbusClientError(reason),
            ),
        }
    }
}

} // verus!
