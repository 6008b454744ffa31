use modbus_tcp_client::transaction::{
    Direction, Outcome, Transaction, TransactionAction, TransactionEvent,
};
use modbus_tcp_client::{ModbusTCPError, NoUnit};

#[derive(Debug, PartialEq)]
struct Trouble {
    code: u8,
}

type Event = TransactionEvent<Trouble>;

fn read() -> (Transaction, TransactionAction<Trouble>) {
    Transaction::send_read_request()
}

fn write() -> (Transaction, TransactionAction<Trouble>) {
    Transaction::send_write_request()
}

#[test]
fn reading_yields_the_values_of_the_unit() {
    let (mut transaction, action) = read();
    assert!(matches!(action, TransactionAction::Create(Direction::Read)));
    let action = transaction.step(Event::Created(Ok(vec![1, 2])));
    assert!(matches!(action, TransactionAction::Send(msg) if msg == vec![1, 2]));
    let action = transaction.step(Event::Answered(Ok(vec![3, 4, 5])));
    assert!(matches!(action, TransactionAction::Parse(response) if response == vec![3, 4, 5]));
    let action = transaction.step(Event::Parsed(Ok(())));
    assert!(matches!(action, TransactionAction::Collect));
    let action = transaction.step(Event::Collected(vec![-1, 7]));
    assert!(
        matches!(action, TransactionAction::Finish(Ok(Outcome::Values(values))) if values == vec![-1, 7])
    );
}

#[test]
fn writing_yields_nothing_but_success() {
    let (mut transaction, action) = write();
    assert!(matches!(action, TransactionAction::Create(Direction::Write)));
    let action = transaction.step(Event::Created(Ok(vec![6])));
    assert!(matches!(action, TransactionAction::Send(msg) if msg == vec![6]));
    transaction.step(Event::Answered(Ok(vec![])));
    let action = transaction.step(Event::Parsed(Ok(())));
    assert!(matches!(action, TransactionAction::Finish(Ok(Outcome::Written))));
}

#[test]
fn unit_that_cannot_build_a_request_ends_the_transaction() {
    for (mut transaction, _) in [read(), write()] {
        let action = transaction.step(Event::Created(Err(Trouble { code: 2 })));
        match action {
            TransactionAction::Finish(Err(ModbusTCPError::ModbusUnitError(error))) => {
                assert_eq!(error, Trouble { code: 2 })
            }
            other => panic!("unexpected action {:?}", other),
        }
    }
}

#[test]
fn failed_exchange_ends_the_transaction() {
    for (mut transaction, _) in [read(), write()] {
        transaction.step(Event::Created(Ok(vec![1])));
        let action = transaction.step(Event::Answered(Err(ModbusTCPError::NotConnected)));
        assert!(matches!(action, TransactionAction::Finish(Err(ModbusTCPError::NotConnected))));
    }
}

#[test]
fn response_that_the_unit_rejects_ends_the_transaction() {
    for (mut transaction, _) in [read(), write()] {
        transaction.step(Event::Created(Ok(vec![1])));
        transaction.step(Event::Answered(Ok(vec![2])));
        let action = transaction.step(Event::Parsed(Err(Trouble { code: 3 })));
        match action {
            TransactionAction::Finish(Err(ModbusTCPError::ModbusUnitError(error))) => {
                assert_eq!(error, Trouble { code: 3 })
            }
            other => panic!("unexpected action {:?}", other),
        }
    }
}

#[test]
fn transaction_does_not_take_foreign_events() {
    let (mut transaction, _) = read();
    let before = transaction;
    let action = transaction.step(Event::Collected(vec![1]));
    assert!(matches!(
        action,
        TransactionAction::Unexpected(TransactionEvent::Collected(values)) if values == vec![1]
    ));
    assert_eq!(transaction, before);
}

#[test]
fn error_of_a_unit_is_no_answer_to_a_request() {
    let (mut transaction, _) = read();
    transaction.step(Event::Created(Ok(vec![1])));
    let before = transaction;
    let answer = Err(ModbusTCPError::ModbusUnitError(NoUnit));
    let action = transaction.step(Event::Answered(answer));
    assert!(matches!(
        action,
        TransactionAction::Unexpected(TransactionEvent::Answered(Err(
            ModbusTCPError::ModbusUnitError(NoUnit)
        )))
    ));
    assert_eq!(transaction, before);
}
