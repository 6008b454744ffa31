//! Reading from a Modbus unit and writing to one.
//!
//! A transaction has the unit build a request, sends it, and has the unit take in the response.
//! The unit itself is not touched here: a [`Transaction`] says what to do next and takes note of
//! how it went.

use crate::command::{result_view, CommandResult, CommandResultView};
use crate::error::{ErrorView, ModbusTCPError, NoUnit};
use vstd::prelude::*;

verus! {

/// Whether a transaction reads or writes.
#[derive(Debug, Clone, Copy, PartialEq, Eq, Structural)]
pub enum Direction {
    Read,
    Write,
}

/// What a transaction waits for.
#[derive(Debug, Clone, Copy, PartialEq, Eq, Structural)]
pub enum Stage {
    /// The unit builds the request.
    Creating,
    /// The request is sent.
    Sending,
    /// The unit takes in the response.
    Parsing,
    /// The unit's values are collected.
    Collecting,
    /// Nothing: the transaction is over.
    Finished,
}

/// A transaction with a Modbus unit.
#[derive(Debug, Clone, Copy, PartialEq, Eq, Structural)]
pub struct Transaction {
    pub direction: Direction,
    pub stage: Stage,
}

/// What a successful transaction brings.
#[derive(Debug)]
pub enum Outcome {
    /// The values read.
    Values(Vec<i32>),
    /// What was to be written has been written.
    Written,
}

/// What happened to a transaction. `E` is what the unit reports when something goes wrong.
#[derive(Debug)]
pub enum TransactionEvent<E> {
    /// The unit built the request, or could not.
    Created(Result<Vec<u8>, E>),
    /// The request was answered, or was not.
    Answered(CommandResult),
    /// The unit took in the response, or could not.
    Parsed(Result<(), E>),
    /// The unit's values were collected.
    Collected(Vec<i32>),
}

/// What a transaction needs next.
#[derive(Debug)]
pub enum TransactionAction<E> {
    /// Have the unit build the request.
    Create(Direction),
    /// Send the request.
    Send(Vec<u8>),
    /// Have the unit take in the response.
    Parse(Vec<u8>),
    /// Collect the unit's values.
    Collect,
    /// Nothing: this is what the caller gets.
    Finish(Result<Outcome, ModbusTCPError<E>>),
    /// Nothing: the event does not belong to what the transaction was waiting for.
    Unexpected(TransactionEvent<E>),
}

/// [`Outcome`] with the values replaced by what they hold.
pub enum OutcomeView {
    Values(Seq<i32>),
    Written,
}

/// [`TransactionEvent`] with everything replaced by what it holds.
pub enum TransactionEventView<E> {
    Created(Result<Seq<u8>, E>),
    Answered(CommandResultView),
    Parsed(Result<(), E>),
    Collected(Seq<i32>),
}

/// [`TransactionAction`] with everything replaced by what it holds.
pub enum TransactionActionView<E> {
    Create(Direction),
    Send(Seq<u8>),
    Parse(Seq<u8>),
    Collect,
    Finish(Result<OutcomeView, ErrorView<E>>),
    Unexpected(TransactionEventView<E>),
}

impl View for Outcome {
    type V = OutcomeView;

    open spec fn view(&self) -> OutcomeView {
        match self {
            Outcome::Values(values) => OutcomeView::Values(values@),
            Outcome::Written => OutcomeView::Written,
        }
    }
}

impl<E> View for TransactionEvent<E> {
    type V = TransactionEventView<E>;

    open spec fn view(&self) -> TransactionEventView<E> {
        match self {
            TransactionEvent::Created(Ok(msg)) => TransactionEventView::Created(Ok(msg@)),
            TransactionEvent::Created(Err(error)) => TransactionEventView::Created(Err(*error)),
            TransactionEvent::Answered(result) => TransactionEventView::Answered(
                result_view(*result),
            ),
            TransactionEvent::Parsed(Ok(())) => TransactionEventView::Parsed(Ok(())),
            TransactionEvent::Parsed(Err(error)) => TransactionEventView::Parsed(Err(*error)),
            TransactionEvent::Collected(values) => TransactionEventView::Collected(values@),
        }
    }
}

impl<E> View for TransactionAction<E> {
    type V = TransactionActionView<E>;

    open spec fn view(&self) -> TransactionActionView<E> {
        match self {
            TransactionAction::Create(direction) => TransactionActionView::Create(*direction),
            TransactionAction::Send(msg) => TransactionActionView::Send(msg@),
            TransactionAction::Parse(response) => TransactionActionView::Parse(response@),
            TransactionAction::Collect => TransactionActionView::Collect,
            TransactionAction::Finish(Ok(outcome)) => TransactionActionView::Finish(Ok(outcome@)),
            TransactionAction::Finish(Err(error)) => TransactionActionView::Finish(Err(error@)),
            TransactionAction::Unexpected(event) => TransactionActionView::Unexpected(event@),
        }
    }
}

impl Transaction {
    /// A transaction that has just begun.
    pub open spec fn begun(direction: Direction) -> Transaction {
        Transaction { direction, stage: Stage::Creating }
    }

    /// The transaction, waiting for something else.
    pub open spec fn at(self, stage: Stage) -> Transaction {
        Transaction { stage, ..self }
    }

    /// The transaction is over, and this is what the caller gets.
    pub open spec fn finish<E>(self, result: Result<OutcomeView, ErrorView<E>>) -> (
        Transaction,
        TransactionActionView<E>,
    ) {
        (self.at(Stage::Finished), TransactionActionView::Finish(result))
    }

    /// What follows an event. A unit's error is no answer to a request: the exchange of a request
    /// for a response is none of the unit's business.
    pub open spec fn after<E>(self, event: TransactionEventView<E>) -> (
        Transaction,
        TransactionActionView<E>,
    ) {
        match (self.stage, event) {
            (Stage::Creating, TransactionEventView::Created(Ok(msg))) => (
                self.at(Stage::Sending),
                TransactionActionView::Send(msg),
            ),
            (Stage::Sending, TransactionEventView::Answered(Ok(response))) => (
                self.at(Stage::Parsing),
                TransactionActionView::Parse(response),
            ),
            (Stage::Parsing, TransactionEventView::Parsed(Ok(()))) => match self.direction {
                Direction::Read => (self.at(Stage::Collecting), TransactionActionView::Collect),
                Direction::Write => self.finish(Ok(OutcomeView::Written)),
            },
            (Stage::Collecting, TransactionEventView::Collected(values)) => self.finish(
                Ok(OutcomeView::Values(values)),
            ),
            (Stage::Creating, TransactionEventView::Created(Err(error))) => self.finish(
                Err(ErrorView::ModbusUnitError(error)),
            ),
            (Stage::Sending, TransactionEventView::Answered(Err(error))) => {
                match error.beside_unit() {
                    Some(error) => self.finish(Err(error)),
                    None => (self, TransactionActionView::Unexpected(event)),
                }
            },
            (Stage::Parsing, TransactionEventView::Parsed(Err(error))) => self.finish(
                Err(ErrorView::ModbusUnitError(error)),
            ),
            _ => (self, TransactionActionView::Unexpected(event)),
        }
    }

    /// Begins to read from a unit.
    pub fn send_read_request<E>() -> (begun: (Transaction, TransactionAction<E>))
        ensures
            begun.0 == Transaction::begun(Direction::Read),
            begun.1@ == TransactionActionView::<E>::Create(Direction::Read),
    {
        (
            Transaction { direction: Direction::Read, stage: Stage::Creating },
            TransactionAction::Create(Direction::Read),
        )
    }

    /// Begins to write to a unit.
    pub fn send_write_request<E>() -> (begun: (Transaction, TransactionAction<E>))
        ensures
            begun.0 == Transaction::begun(Direction::Write),
            begun.1@ == TransactionActionView::<E>::Create(Direction::Write),
    {
        (
            Transaction { direction: Direction::Write, stage: Stage::Creating },
            TransactionAction::Create(Direction::Write),
        )
    }

    /// Takes note of an event and says what to do next.
    pub fn step<E>(&mut self, event: TransactionEvent<E>) -> (action: TransactionAction<E>)
        ensures
            (*final(self), action@) == old(self).after(event@),
    {
        match (self.stage, event) {
            (Stage::Creating, TransactionEvent::Created(Ok(msg))) => {
                self.stage = Stage::Sending;
                TransactionAction::Send(msg)
            },
            (Stage::Sending, TransactionEvent::Answered(Ok(response))) => {
                self.stage = Stage::Parsing;
                TransactionAction::Parse(response)
            },
            (Stage::Parsing, TransactionEvent::Parsed(Ok(()))) => match self.direction {
                Direction::Read => {
                    self.stage = Stage::Collecting;
                    TransactionAction::Collect
                },
                Direction::Write => {
                    self.stage = Stage::Finished;
                    TransactionAction::Finish(Ok(Outcome::Written))
                },
            },
            (Stage::Collecting, TransactionEvent::Collected(values)) => {
                self.stage = Stage::Finished;
                TransactionAction::Finish(Ok(Outcome::Values(values)))
            },
            (Stage::Creating, TransactionEvent::Created(Err(error))) => {
                self.stage = Stage::Finished;
                TransactionAction::Finish(Err(ModbusTCPError::ModbusUnitError(error)))
            },
            (Stage::Sending, TransactionEvent::Answered(Err(error))) => match error.beside_unit() {
                Some(error) => {
                    self.stage = Stage::Finished;
                    TransactionAction::Finish(Err(error))
                },
                None => TransactionAction::Unexpected(
                    TransactionEvent::Answered(Err(ModbusTCPError::ModbusUnitError(NoUnit))),
                ),
            },
            (Stage::Parsing, TransactionEvent::Parsed(Err(error))) => {
                self.stage = Stage::Finished;
                TransactionAction::Finish(Err(ModbusTCPError::ModbusUnitError(error)))
            },
            (_, event) => TransactionAction::Unexpected(event),
        }
    }
}

/// A unit and a peer: what request the unit builds, how the peer answers a request, whether the
/// unit takes in a response, and which values it then holds.
pub struct World<E> {
    pub created: Result<Seq<u8>, E>,
    pub answered: spec_fn(Seq<u8>) -> CommandResultView,
    pub parsed: spec_fn(Seq<u8>) -> Result<(), E>,
    pub values: spec_fn(Seq<u8>) -> Seq<i32>,
}

impl<E> World<E> {
    /// The peer's answer is never a unit's error.
    pub open spec fn wf(self) -> bool {
        forall|msg: Seq<u8>|
            !((#[trigger] (self.answered)(msg)) matches Err(ErrorView::ModbusUnitError(_)))
    }

    /// What comes of a transaction: the first thing that goes wrong, or, if nothing does, what
    /// the unit made of the answer to the request that it built.
    pub open spec fn outcome(self, direction: Direction) -> Result<OutcomeView, ErrorView<E>> {
        match self.created {
            Err(error) => Err(ErrorView::ModbusUnitError(error)),
            Ok(msg) => match (self.answered)(msg) {
                Err(error) => Err(error.beside_unit()->Some_0),
                Ok(response) => match (self.parsed)(response) {
                    Err(error) => Err(ErrorView::ModbusUnitError(error)),
                    Ok(()) => match direction {
                        Direction::Read => Ok(OutcomeView::Values((self.values)(response))),
                        Direction::Write => Ok(OutcomeView::Written),
                    },
                },
            },
        }
    }

    /// What happens when `action` is performed; `response` is the last one that the unit took in.
    pub open spec fn perform(
        self,
        action: TransactionActionView<E>,
        response: Seq<u8>,
    ) -> TransactionEventView<E> {
        match action {
            TransactionActionView::Create(_) => TransactionEventView::Created(self.created),
            TransactionActionView::Send(msg) => TransactionEventView::Answered(
                (self.answered)(msg),
            ),
            TransactionActionView::Parse(response) => TransactionEventView::Parsed(
                (self.parsed)(response),
            ),
            _ => TransactionEventView::Collected((self.values)(response)),
        }
    }

    /// What the caller gets if every action that the transaction asks for is performed, at most
    /// `steps` of them.
    pub open spec fn play(
        self,
        transaction: Transaction,
        action: TransactionActionView<E>,
        response: Seq<u8>,
        steps: nat,
    ) -> Option<Result<OutcomeView, ErrorView<E>>>
        decreases steps,
    {
        match action {
            TransactionActionView::Finish(result) => Some(result),
            _ if steps == 0 => None,
            _ => {
                let (next, then) = transaction.after(self.perform(action, response));
                let response = match action {
                    TransactionActionView::Parse(response) => response,
                    _ => response,
                };
                self.play(next, then, response, (steps - 1) as nat)
            },
        }
    }
}

/// A transaction sends the request that the unit built, has the unit take in the answer to that
/// request, and collects values only then. The caller gets the first failure on the way, or the
/// success.
pub proof fn law_transaction_outcome<E>(world: World<E>, direction: Direction, response: Seq<u8>)
    requires
        world.wf(),
    ensures
        world.play(
            Transaction::begun(direction),
            TransactionActionView::Create(direction),
            response,
            4,
        ) == Some(world.outcome(direction)),
{
    reveal_with_fuel(World::<_>::play, 6);
}

} // verus!
