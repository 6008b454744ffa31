//! Carrying out one command on an open connection.
//!
//! A command is tried up to `retry_count + 1` times. Every try writes the packet and then reads
//! the response. What the socket did is handed to [`PendingWrite::written`] and
//! [`PendingRead::received`], which decide what happens next.

use crate::error::{ErrorView, ModbusTCPError};
use vstd::prelude::*;
use vstd::string::*;

verus! {

/// How long a single write may take, in milliseconds.
pub const WRITE_TIMEOUT_MILLIS: u64 = 1000;

/// How many bytes a read offers to the socket for a response.
pub const RESPONSE_CAPACITY: usize = 1024;

/// How the write of a packet ended.
#[derive(Debug)]
pub enum WriteOutcome {
    /// The whole packet went out.
    Written,
    /// The socket reported an error.
    Failed(String),
    /// The write did not end in time.
    TimedOut,
}

/// How the read of a response ended.
#[derive(Debug)]
pub enum ReadOutcome {
    /// The socket put `count` bytes into `buffer`; a count of zero means that the peer is gone.
    Received { buffer: Vec<u8>, count: usize },
    /// The socket reported an error.
    Failed(String),
    /// Nothing arrived in time.
    TimedOut,
}

/// [`WriteOutcome`] with texts replaced by their characters.
pub enum WriteOutcomeView {
    Written,
    Failed(Seq<char>),
    TimedOut,
}

/// [`ReadOutcome`] with texts and buffers replaced by what they hold.
pub enum ReadOutcomeView {
    Received { buffer: Seq<u8>, count: usize },
    Failed(Seq<char>),
    TimedOut,
}

impl View for WriteOutcome {
    type V = WriteOutcomeView;

    open spec fn view(&self) -> WriteOutcomeView {
        match self {
            WriteOutcome::Written => WriteOutcomeView::Written,
            WriteOutcome::Failed(reason) => WriteOutcomeView::Failed(reason@),
            WriteOutcome::TimedOut => WriteOutcomeView::TimedOut,
        }
    }
}

impl View for ReadOutcome {
    type V = ReadOutcomeView;

    open spec fn view(&self) -> ReadOutcomeView {
        match self {
            ReadOutcome::Received { buffer, count } => ReadOutcomeView::Received {
                buffer: buffer@,
                count: *count,
            },
            ReadOutcome::Failed(reason) => ReadOutcomeView::Failed(reason@),
            ReadOutcome::TimedOut => ReadOutcomeView::TimedOut,
        }
    }
}

/// The answer to a command: the response, or why there is none.
pub type CommandResult = Result<Vec<u8>, ModbusTCPError>;

/// [`CommandResult`] with the response and the error replaced by what they hold.
pub type CommandResultView = Result<Seq<u8>, ErrorView>;

/// What a command's answer says.
pub open spec fn result_view(result: CommandResult) -> CommandResultView {
    match result {
        Ok(response) => Ok(response@),
        Err(error) => Err(error@),
    }
}

/// One of the tries of a command.
struct Attempt {
    packet: Vec<u8>,
    retry_count: usize,
    /// How many tries have failed before this one.
    number: usize,
}

/// A try of a command: its packet, how often it may be repeated, and how many tries failed before.
pub struct AttemptView {
    pub packet: Seq<u8>,
    pub retry_count: usize,
    pub number: usize,
}

impl AttemptView {
    /// No try has a number above the number of repetitions allowed.
    pub open spec fn wf(self) -> bool {
        self.number <= self.retry_count
    }

    /// What follows a try that failed for `reason`: the next try, or, after the last one, giving
    /// up for that reason.
    pub open spec fn failed(self, reason: Seq<char>) -> CommandStepView {
        if self.number == self.retry_count {
            CommandStepView::Done(Err(ErrorView::ConnectionFailed(reason)))
        } else {
            CommandStepView::Write(AttemptView { number: (self.number + 1) as usize, ..self })
        }
    }

    /// What follows the write of the packet.
    pub open spec fn written(self, outcome: WriteOutcomeView) -> CommandStepView {
        match outcome {
            WriteOutcomeView::Written => CommandStepView::Read(self),
            WriteOutcomeView::Failed(reason) => self.failed(reason),
            WriteOutcomeView::TimedOut => self.failed("Write timeout"@),
        }
    }

    /// What follows the read of the response.
    pub open spec fn received(self, outcome: ReadOutcomeView) -> CommandStepView {
        match outcome {
            ReadOutcomeView::Received { buffer, count } => CommandStepView::Done(
                if count == 0 {
                    Err(ErrorView::ConnectionFailed("Connection closed"@))
                } else {
                    Ok(first_bytes(buffer, count as int))
                },
            ),
            ReadOutcomeView::Failed(reason) => self.failed(reason),
            ReadOutcomeView::TimedOut => self.failed("Timeout"@),
        }
    }
}

/// The first `count` bytes of `buffer`, or all of them if there are fewer.
pub open spec fn first_bytes(buffer: Seq<u8>, count: int) -> Seq<u8> {
    if count <= buffer.len() {
        buffer.take(count)
    } else {
        buffer
    }
}

/// What [`CommandStep`] asks for.
pub enum CommandStepView {
    Write(AttemptView),
    Read(AttemptView),
    Done(CommandResultView),
}

impl Attempt {
    #[verifier::type_invariant]
    spec fn wf(self) -> bool {
        self.number <= self.retry_count
    }

    spec fn model(self) -> AttemptView {
        AttemptView { packet: self.packet@, retry_count: self.retry_count, number: self.number }
    }

    fn failed(self, reason: String) -> (step: CommandStep)
        ensures
            step@ == self.model().failed(reason@),
    {
        proof {
            use_type_invariant(&self);
        }
        if self.number == self.retry_count {
            CommandStep::Done(Err(ModbusTCPError::ConnectionFailed(reason)))
        } else {
            CommandStep::Write(
                PendingWrite {
                    attempt: Attempt {
                        packet: self.packet,
                        retry_count: self.retry_count,
                        number: self.number + 1,
                    },
                },
            )
        }
    }
}

/// A command whose packet is to be written next.
pub struct PendingWrite {
    attempt: Attempt,
}

/// A command whose response is to be read next.
pub struct PendingRead {
    attempt: Attempt,
}

/// What a command needs next.
pub enum CommandStep {
    /// The packet is to be written.
    Write(PendingWrite),
    /// The response is to be read.
    Read(PendingRead),
    /// Nothing more: this is the answer.
    Done(CommandResult),
}

impl View for PendingWrite {
    type V = AttemptView;

    closed spec fn view(&self) -> AttemptView {
        self.attempt.model()
    }
}

impl View for PendingRead {
    type V = AttemptView;

    closed spec fn view(&self) -> AttemptView {
        self.attempt.model()
    }
}

impl View for CommandStep {
    type V = CommandStepView;

    open spec fn view(&self) -> CommandStepView {
        match self {
            CommandStep::Write(pending) => CommandStepView::Write(pending@),
            CommandStep::Read(pending) => CommandStepView::Read(pending@),
            CommandStep::Done(result) => CommandStepView::Done(result_view(*result)),
        }
    }
}

/// The first try of a command.
pub open spec fn first_attempt(packet: Seq<u8>, retry_count: usize) -> AttemptView {
    AttemptView { packet, retry_count, number: 0 }
}

/// Begins to carry out a command: its packet is to be written, and a failed try may be repeated
/// `retry_count` times.
pub fn execute_command(packet: Vec<u8>, retry_count: usize) -> (pending: PendingWrite)
    ensures
        pending@ == first_attempt(packet@, retry_count),
{
    PendingWrite { attempt: Attempt { packet, retry_count, number: 0 } }
}

impl PendingWrite {
    /// The bytes to write.
    pub fn packet(&self) -> (packet: Vec<u8>)
        ensures
            packet@ == self@.packet,
    {
        self.attempt.packet.clone()
    }

    /// Takes note of how the write ended.
    pub fn written(self, outcome: WriteOutcome) -> (step: CommandStep)
        ensures
            step@ == self@.written(outcome@),
    {
        match outcome {
            WriteOutcome::Written => CommandStep::Read(PendingRead { attempt: self.attempt }),
            WriteOutcome::Failed(reason) => self.attempt.failed(reason),
            WriteOutcome::TimedOut => self.attempt.failed("Write timeout".to_string()),
        }
    }
}

impl PendingRead {
    /// Takes note of how the read ended.
    pub fn received(self, outcome: ReadOutcome) -> (step: CommandStep)
        ensures
            step@ == self@.received(outcome@),
            outcome matches ReadOutcome::Received { buffer, count } ==> (0 < count <= buffer@.len()
                ==> (step matches CommandStep::Done(Ok(response)) && response@.len() == count
                && forall|i: int| 0 <= i < count ==> #[trigger] response@[i] == buffer@[i])),
    {
        match outcome {
            ReadOutcome::Received { buffer, count } => {
                if count == 0 {
                    CommandStep::Done(
                        Err(ModbusTCPError::ConnectionFailed("Connection closed".to_string())),
                    )
                } else {
                    let mut response = buffer;
                    response.truncate(count);
                    CommandStep::Done(Ok(response))
                }
            },
            ReadOutcome::Failed(reason) => self.attempt.failed(reason),
            ReadOutcome::TimedOut => self.attempt.failed("Timeout".to_string()),
        }
    }
}

/// What the socket does during one try: how the write ends and, if the packet went out, how the
/// read ends.
pub struct TryView {
    pub write: WriteOutcomeView,
    pub read: ReadOutcomeView,
}

impl TryView {
    /// The try ends the command whatever its number: something was read, or the peer is gone.
    pub open spec fn settles(self) -> bool {
        self.write is Written && self.read is Received
    }

    /// The answer to the command if this is the try that ends it.
    pub open spec fn verdict(self) -> CommandResultView {
        match self.write {
            WriteOutcomeView::Failed(reason) => Err(ErrorView::ConnectionFailed(reason)),
            WriteOutcomeView::TimedOut => Err(ErrorView::ConnectionFailed("Write timeout"@)),
            WriteOutcomeView::Written => match self.read {
                ReadOutcomeView::Failed(reason) => Err(ErrorView::ConnectionFailed(reason)),
                ReadOutcomeView::TimedOut => Err(ErrorView::ConnectionFailed("Timeout"@)),
                ReadOutcomeView::Received { buffer, count } => if count == 0 {
                    Err(ErrorView::ConnectionFailed("Connection closed"@))
                } else {
                    Ok(first_bytes(buffer, count as int))
                },
            },
        }
    }
}

impl AttemptView {
    /// Where the command stands after a try.
    pub open spec fn tried(self, outcome: TryView) -> CommandStepView {
        match self.written(outcome.write) {
            CommandStepView::Read(attempt) => attempt.received(outcome.read),
            step => step,
        }
    }
}

/// Where a command that stood at `step` stands after the tries `tries`; once it is done, nothing
/// is tried any more.
pub open spec fn carried_out(step: CommandStepView, tries: Seq<TryView>) -> CommandStepView
    decreases tries.len(),
{
    match step {
        CommandStepView::Write(attempt) if tries.len() > 0 => carried_out(
            attempt.tried(tries[0]),
            tries.drop_first(),
        ),
        _ => step,
    }
}

/// Try `k` is the first one that settles the command or the last one allowed.
pub open spec fn decides(tries: Seq<TryView>, retry_count: int, k: int) -> bool {
    &&& 0 <= k < tries.len()
    &&& k <= retry_count
    &&& tries[k].settles() || k == retry_count
    &&& forall|i: int| 0 <= i < k ==> !#[trigger] tries[i].settles()
}

proof fn lemma_decided(attempt: AttemptView, tries: Seq<TryView>, k: int)
    requires
        attempt.wf(),
        decides(tries, attempt.retry_count - attempt.number, k),
    ensures
        carried_out(CommandStepView::Write(attempt), tries) == CommandStepView::Done(
            tries[k].verdict(),
        ),
    decreases k,
{
    let rest = tries.drop_first();
    let step = attempt.tried(tries[0]);
    if k == 0 {
        assert(carried_out(step, rest) == step);
    } else {
        assert(!tries[0].settles());
        let next = AttemptView { number: (attempt.number + 1) as usize, ..attempt };
        assert(step == CommandStepView::Write(next));
        assert forall|i: int| 0 <= i < k - 1 implies !#[trigger] rest[i].settles() by {
            assert(!tries[i + 1].settles());
        }
        lemma_decided(next, rest, k - 1);
    }
}

proof fn lemma_undecided(attempt: AttemptView, tries: Seq<TryView>)
    requires
        attempt.wf(),
        tries.len() <= attempt.retry_count - attempt.number,
        forall|i: int| 0 <= i < tries.len() ==> !#[trigger] tries[i].settles(),
    ensures
        carried_out(CommandStepView::Write(attempt), tries) == CommandStepView::Write(
            AttemptView { number: (attempt.number + tries.len()) as usize, ..attempt },
        ),
    decreases tries.len(),
{
    if tries.len() > 0 {
        let rest = tries.drop_first();
        let next = AttemptView { number: (attempt.number + 1) as usize, ..attempt };
        assert(!tries[0].settles());
        assert(attempt.tried(tries[0]) == CommandStepView::Write(next));
        assert forall|i: int| 0 <= i < rest.len() implies !#[trigger] rest[i].settles() by {
            assert(!tries[i + 1].settles());
        }
        lemma_undecided(next, rest);
    }
}

/// A command is answered by the first try in which the socket yields a response or turns out to
/// be closed; if no such try comes, by the failure of the last try that is allowed.
pub proof fn law_command_answer(packet: Seq<u8>, retry_count: usize, tries: Seq<TryView>, k: int)
    requires
        decides(tries, retry_count as int, k),
    ensures
        carried_out(CommandStepView::Write(first_attempt(packet, retry_count)), tries)
            == CommandStepView::Done(tries[k].verdict()),
{
    lemma_decided(first_attempt(packet, retry_count), tries, k);
}

/// As long as every try so far failed and another one is allowed, the same packet is to be
/// written again.
pub proof fn law_command_repeats(packet: Seq<u8>, retry_count: usize, tries: Seq<TryView>)
    requires
        tries.len() <= retry_count,
        forall|i: int| 0 <= i < tries.len() ==> !#[trigger] tries[i].settles(),
    ensures
        carried_out(CommandStepView::Write(first_attempt(packet, retry_count)), tries)
            == CommandStepView::Write(
            AttemptView { packet, retry_count, number: tries.len() as usize },
        ),
{
    lemma_undecided(first_attempt(packet, retry_count), tries);
}

/// `retry_count + 1` tries always bring an answer, and the answer is the verdict of one of them.
pub proof fn law_command_ends(packet: Seq<u8>, retry_count: usize, tries: Seq<TryView>)
    requires
        tries.len() > retry_count,
    ensures
        exists|k: int|
            #[trigger] decides(tries, retry_count as int, k) && carried_out(
                CommandStepView::Write(first_attempt(packet, retry_count)),
                tries,
            ) == CommandStepView::Done(tries[k].verdict()),
{
    let k = first_deciding(tries, retry_count as int, 0);
    lemma_first_deciding(tries, retry_count as int, 0);
    law_command_answer(packet, retry_count, tries, k);
}

/// The first try from `from` on that settles the command, or else the last one allowed.
spec fn first_deciding(tries: Seq<TryView>, retry_count: int, from: int) -> int
    decreases retry_count - from,
{
    if from >= retry_count || tries[from].settles() {
        from
    } else {
        first_deciding(tries, retry_count, from + 1)
    }
}

proof fn lemma_first_deciding(tries: Seq<TryView>, retry_count: int, from: int)
    requires
        0 <= from <= retry_count < tries.len(),
        forall|i: int| 0 <= i < from ==> !#[trigger] tries[i].settles(),
    ensures
        decides(tries, retry_count, first_deciding(tries, retry_count, from)),
    decreases retry_count - from,
{
    if from < retry_count && !tries[from].settles() {
        lemma_first_deciding(tries, retry_count, from + 1);
    }
}

} // verus!
