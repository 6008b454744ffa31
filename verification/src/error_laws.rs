//! What an error says, and that it goes on saying it.

use crate::error::{ErrorView, ModbusTCPError};
use vstd::prelude::*;

verus! {

/// Two errors say the same, one of them beside a unit that did not report it.
pub open spec fn same_error<E>(error: ErrorView, other: ErrorView<E>) -> bool {
    match error {
        ErrorView::InvalidIpAddr => other is InvalidIpAddr,
        ErrorView::InvalidPort => other is InvalidPort,
        ErrorView::AlreadySubscribed => other is AlreadySubscribed,
        ErrorView::ConnectionFailed(reason) => other == ErrorView::<E>::ConnectionFailed(reason),
        ErrorView::NotConnected => other is NotConnected,
        ErrorView::ModbusUnitError(_) => false,
        ErrorView::ModbusClientError(reason) => other == ErrorView::<E>::ModbusClientError(reason),
    }
}

/// An error stays what it is beside a unit, and only a unit's own has no counterpart.
pub proof fn law_errors_stay_what_they_are_beside_a_unit<E>(error: ErrorView)
    ensures
        error.beside_unit::<E>() is None <==> error is ModbusUnitError,
        error.beside_unit::<E>() matches Some(same) ==> same_error(error, same),
{
}

/// Two errors that say the same beside a unit are the same.
pub proof fn law_errors_stay_apart_beside_a_unit<E>(error: ErrorView, other: ErrorView)
    requires
        error.beside_unit::<E>() is Some,
        error.beside_unit::<E>() == other.beside_unit::<E>(),
    ensures
        error == other,
{
}

/// An error is taken as it is.
pub proof fn law_errors_are_taken_as_they_are<E>(reason: String, error: E)
    ensures
        ModbusTCPError::<E>::InvalidIpAddr@ == ErrorView::<E>::InvalidIpAddr,
        ModbusTCPError::<E>::InvalidPort@ == ErrorView::<E>::InvalidPort,
        ModbusTCPError::<E>::AlreadySubscribed@ == ErrorView::<E>::AlreadySubscribed,
        ModbusTCPError::<E>::ConnectionFailed(reason)@ == ErrorView::<E>::ConnectionFailed(reason@),
        ModbusTCPError::<E>::NotConnected@ == ErrorView::<E>::NotConnected,
        ModbusTCPError::ModbusUnitError(error)@ == ErrorView::ModbusUnitError(error),
        ModbusTCPError::<E>::ModbusClientError(reason)@ == ErrorView::<E>::ModbusClientError(
            reason@,
        ),
{
}

/// Every error has a sentence of its own: a fixed one, a fixed beginning before its reason, or, for
/// a unit's error, the unit's.
pub proof fn law_messages(reason: Seq<char>, text: String)
    ensures
        ErrorView::<String>::InvalidIpAddr.message() == "Invalid Ip address"@,
        ErrorView::<String>::InvalidPort.message() == "Invalid Port"@,
        ErrorView::<String>::AlreadySubscribed.message() == "Already subscribed"@,
        ErrorView::<String>::ConnectionFailed(reason).message() == "Connection failed: "@ + reason,
        ErrorView::<String>::NotConnected.message() == "Not connected"@,
        ErrorView::ModbusUnitError(text).message() == text@,
        ErrorView::<String>::ModbusClientError(reason).message() == "Transport error: "@ + reason,
{
}

} // verus!
