//! What a transaction does next, told by what it was waiting for and what happened.

use crate::command::{result_view, CommandResult};
use crate::error::{ErrorView, ModbusTCPError};
use crate::error_laws::same_error;
use crate::transaction::{
    Direction, Outcome, OutcomeView, Stage, Transaction, TransactionAction, TransactionActionView,
    TransactionEvent, TransactionEventView,
};
use vstd::prelude::*;

verus! {

/// A transaction begins by having the unit build a request.
pub proof fn law_transaction_begins_with_the_request(direction: Direction)
    ensures
        Transaction::begun(direction) == (Transaction { direction, stage: Stage::Creating }),
{
}

/// The request that the unit built is sent as it is.
pub proof fn law_request_is_sent_as_built<E>(transaction: Transaction, msg: Seq<u8>)
    requires
        transaction.stage is Creating,
    ensures
        transaction.after(TransactionEventView::<E>::Created(Ok(msg))) == (
            Transaction { direction: transaction.direction, stage: Stage::Sending },
            TransactionActionView::<E>::Send(msg),
        ),
{
}

/// The response that came is handed to the unit as it is.
pub proof fn law_response_is_parsed_as_it_came<E>(transaction: Transaction, response: Seq<u8>)
    requires
        transaction.stage is Sending,
    ensures
        transaction.after(TransactionEventView::<E>::Answered(Ok(response))) == (
            Transaction { direction: transaction.direction, stage: Stage::Parsing },
            TransactionActionView::<E>::Parse(response),
        ),
{
}

/// Once the unit has taken in the response, a read collects its values, and a write is over.
pub proof fn law_parsed_response_ends_a_write_and_fills_a_read<E>(transaction: Transaction)
    requires
        transaction.stage is Parsing,
    ensures
        transaction.direction is Read ==> transaction.after(
            TransactionEventView::<E>::Parsed(Ok(())),
        ) == (
            Transaction { direction: Direction::Read, stage: Stage::Collecting },
            TransactionActionView::<E>::Collect,
        ),
        transaction.direction is Write ==> transaction.after(
            TransactionEventView::<E>::Parsed(Ok(())),
        ) == (
            Transaction { direction: Direction::Write, stage: Stage::Finished },
            TransactionActionView::<E>::Finish(Ok(OutcomeView::Written)),
        ),
{
}

/// The caller of a read gets the unit's values, all of them and in order.
pub proof fn law_values_are_handed_over<E>(transaction: Transaction, values: Seq<i32>)
    requires
        transaction.stage is Collecting,
    ensures
        ({
            let (next, action) = transaction.after(TransactionEventView::<E>::Collected(values));
            &&& next == (Transaction { direction: transaction.direction, stage: Stage::Finished })
            &&& action is Finish
            &&& action->Finish_0 is Ok
            &&& action->Finish_0->Ok_0 is Values
            &&& action->Finish_0->Ok_0->Values_0.len() == values.len()
            &&& forall|i: int|
                0 <= i < values.len() ==> #[trigger] action->Finish_0->Ok_0->Values_0[i]
                    == values[i]
        }),
{
}

/// Whatever the unit reports, while it builds a request or while it takes in a response, is what
/// the caller gets, and the transaction is over: nothing is sent, and nothing is collected.
pub proof fn law_unit_error_is_handed_over<E>(transaction: Transaction, error: E)
    ensures
        ({
            let failed = (
                Transaction { direction: transaction.direction, stage: Stage::Finished },
                TransactionActionView::Finish(Err(ErrorView::ModbusUnitError(error))),
            );
            &&& transaction.stage is Creating ==> transaction.after(
                TransactionEventView::Created(Err(error)),
            ) == failed
            &&& transaction.stage is Parsing ==> transaction.after(
                TransactionEventView::Parsed(Err(error)),
            ) == failed
        }),
{
}

/// A request that failed ends the transaction, and the caller gets that very failure.
pub proof fn law_failed_request_is_handed_over<E>(transaction: Transaction, error: ErrorView)
    requires
        transaction.stage is Sending,
        !(error is ModbusUnitError),
    ensures
        ({
            let (next, action) = transaction.after(TransactionEventView::<E>::Answered(Err(error)));
            &&& next == (Transaction { direction: transaction.direction, stage: Stage::Finished })
            &&& action is Finish
            &&& action->Finish_0 is Err
            &&& same_error(error, action->Finish_0->Err_0)
        }),
{
}

/// The event can happen while a transaction waits for this.
pub open spec fn can_happen<E>(stage: Stage, event: TransactionEventView<E>) -> bool {
    match stage {
        Stage::Creating => event is Created,
        Stage::Sending => event is Answered && !(event->Answered_0 matches Err(
            ErrorView::ModbusUnitError(_),
        )),
        Stage::Parsing => event is Parsed,
        Stage::Collecting => event is Collected,
        Stage::Finished => false,
    }
}

/// What cannot happen is handed back, with the transaction as it was; a transaction that is over
/// stays so.
pub proof fn law_what_cannot_happen_is_handed_back<E>(
    transaction: Transaction,
    event: TransactionEventView<E>,
)
    ensures
        can_happen(transaction.stage, event) ==> !(transaction.after(event).1 is Unexpected),
        !can_happen(transaction.stage, event) ==> transaction.after(event) == (
            transaction,
            TransactionActionView::Unexpected(event),
        ),
{
}

/// What happened is taken as it is.
pub proof fn law_events_are_taken_as_they_are<E>(
    msg: Vec<u8>,
    error: E,
    result: CommandResult,
    values: Vec<i32>,
)
    ensures
        TransactionEvent::<E>::Created(Ok(msg))@ == TransactionEventView::<E>::Created(Ok(msg@)),
        TransactionEvent::Created(Err(error))@ == TransactionEventView::Created(Err(error)),
        TransactionEvent::<E>::Answered(result)@ == TransactionEventView::<E>::Answered(
            result_view(result),
        ),
        TransactionEvent::<E>::Parsed(Ok(()))@ == TransactionEventView::<E>::Parsed(Ok(())),
        TransactionEvent::Parsed(Err(error))@ == TransactionEventView::Parsed(Err(error)),
        TransactionEvent::<E>::Collected(values)@ == TransactionEventView::<E>::Collected(values@),
{
}

/// What is asked for, and what the caller gets, is meant as it is.
pub proof fn law_actions_are_meant_as_they_are<E>(
    direction: Direction,
    bytes: Vec<u8>,
    values: Vec<i32>,
    error: ModbusTCPError<E>,
    event: TransactionEvent<E>,
)
    ensures
        TransactionAction::<E>::Create(direction)@ == TransactionActionView::<E>::Create(direction),
        TransactionAction::<E>::Send(bytes)@ == TransactionActionView::<E>::Send(bytes@),
        TransactionAction::<E>::Parse(bytes)@ == TransactionActionView::<E>::Parse(bytes@),
        TransactionAction::<E>::Collect@ == TransactionActionView::<E>::Collect,
        TransactionAction::<E>::Finish(Ok(Outcome::Values(values)))@
            == TransactionActionView::<E>::Finish(Ok(OutcomeView::Values(values@))),
        TransactionAction::<E>::Finish(Ok(Outcome::Written))@
            == TransactionActionView::<E>::Finish(Ok(OutcomeView::Written)),
        TransactionAction::Finish(Err(error))@ == TransactionActionView::Finish(Err(error@)),
        TransactionAction::Unexpected(event)@ == TransactionActionView::Unexpected(event@),
{
}

} // verus!
