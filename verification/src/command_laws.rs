//! What becomes of a command, told by what the socket did.

use crate::command::{
    carried_out, first_attempt, result_view, AttemptView, CommandResult, CommandStep,
    CommandStepView, ReadOutcome, ReadOutcomeView, TryView, WriteOutcome, WriteOutcomeView,
    RESPONSE_CAPACITY, WRITE_TIMEOUT_MILLIS,
};
use crate::error::ErrorView;
use vstd::prelude::*;

verus! {

/// A read that brought something settles the command, whichever try it was: the answer is a
/// response with as many bytes as came, each one where it was in the buffer.
pub proof fn law_response_is_all_that_came(attempt: AttemptView, buffer: Seq<u8>, count: usize)
    requires
        0 < count <= buffer.len(),
    ensures
        attempt.received(ReadOutcomeView::Received { buffer, count }) matches CommandStepView::Done(
            Ok(response),
        ) && response.len() == count && forall|i: int|
            0 <= i < count ==> #[trigger] response[i] == buffer[i],
{
}

/// A count beyond the end of the buffer adds nothing to it: the answer is the whole buffer.
pub proof fn law_response_is_at_most_the_buffer(
    attempt: AttemptView,
    buffer: Seq<u8>,
    count: usize,
)
    requires
        count > buffer.len(),
    ensures
        attempt.received(ReadOutcomeView::Received { buffer, count }) matches CommandStepView::Done(
            Ok(response),
        ) && response.len() == buffer.len() && forall|i: int|
            0 <= i < buffer.len() ==> #[trigger] response[i] == buffer[i],
{
}

/// A response depends on the bytes that came and on nothing else: neither on what the rest of the
/// buffer holds, nor on the command, nor on which try it was.
pub proof fn law_response_depends_on_the_bytes_alone(
    attempt: AttemptView,
    other: AttemptView,
    buffer: Seq<u8>,
    other_buffer: Seq<u8>,
    count: usize,
)
    requires
        count <= buffer.len(),
        count <= other_buffer.len(),
        forall|i: int| 0 <= i < count ==> #[trigger] buffer[i] == other_buffer[i],
    ensures
        attempt.received(ReadOutcomeView::Received { buffer, count }) == other.received(
            ReadOutcomeView::Received { buffer: other_buffer, count },
        ),
{
    if count > 0 {
        law_response_is_all_that_came(attempt, buffer, count);
        law_response_is_all_that_came(other, other_buffer, count);
        let first = attempt.received(
            ReadOutcomeView::Received { buffer, count },
        )->Done_0->Ok_0;
        let second = other.received(
            ReadOutcomeView::Received { buffer: other_buffer, count },
        )->Done_0->Ok_0;
        assert forall|i: int| 0 <= i < count implies first[i] == second[i] by {
            assert(buffer[i] == other_buffer[i]);
        }
        assert(first =~= second);
    }
}

/// A read that brought nothing means that the peer is gone. No further try is made, however many
/// are left.
pub proof fn law_closed_connection_is_not_tried_again(attempt: AttemptView, buffer: Seq<u8>)
    ensures
        attempt.received(ReadOutcomeView::Received { buffer, count: 0 }) == CommandStepView::Done(
            Err(ErrorView::ConnectionFailed("Connection closed"@)),
        ),
{
}

/// Once the packet is out, the response to that very packet is awaited, within the same try.
pub proof fn law_write_is_followed_by_a_read(attempt: AttemptView)
    ensures
        attempt.written(WriteOutcomeView::Written) == CommandStepView::Read(attempt),
{
}

/// The first try of a command has the command's packet and all of its repetitions before it.
pub proof fn law_first_try(packet: Seq<u8>, retry_count: usize)
    ensures
        first_attempt(packet, retry_count).packet == packet,
        first_attempt(packet, retry_count).retry_count == retry_count,
        first_attempt(packet, retry_count).number == 0,
        first_attempt(packet, retry_count).wf(),
{
}

/// A failure of a write or of a read, whatever the reason, is followed by another write of the
/// same packet as long as a repetition is left.
pub proof fn law_failed_try_is_repeated(attempt: AttemptView, reason: Seq<char>)
    requires
        attempt.number < attempt.retry_count,
    ensures
        ({
            let again = CommandStepView::Write(
                AttemptView {
                    packet: attempt.packet,
                    retry_count: attempt.retry_count,
                    number: (attempt.number + 1) as usize,
                },
            );
            &&& attempt.written(WriteOutcomeView::Failed(reason)) == again
            &&& attempt.written(WriteOutcomeView::TimedOut) == again
            &&& attempt.received(ReadOutcomeView::Failed(reason)) == again
            &&& attempt.received(ReadOutcomeView::TimedOut) == again
        }),
{
}

/// The failure of the last try is the answer: the socket's own reason, or which of the two time
/// limits passed.
pub proof fn law_last_failure_is_the_answer(attempt: AttemptView, reason: Seq<char>)
    requires
        attempt.number == attempt.retry_count,
    ensures
        attempt.written(WriteOutcomeView::Failed(reason)) == CommandStepView::Done(
            Err(ErrorView::ConnectionFailed(reason)),
        ),
        attempt.written(WriteOutcomeView::TimedOut) == CommandStepView::Done(
            Err(ErrorView::ConnectionFailed("Write timeout"@)),
        ),
        attempt.received(ReadOutcomeView::Failed(reason)) == CommandStepView::Done(
            Err(ErrorView::ConnectionFailed(reason)),
        ),
        attempt.received(ReadOutcomeView::TimedOut) == CommandStepView::Done(
            Err(ErrorView::ConnectionFailed("Timeout"@)),
        ),
{
}

/// The packet does not bear on how a command goes: two commands that may be repeated equally
/// often and meet the same socket get the same answer.
pub proof fn law_answer_does_not_depend_on_the_packet(
    packet: Seq<u8>,
    other: Seq<u8>,
    retry_count: usize,
    tries: Seq<TryView>,
)
    ensures
        carried_out(CommandStepView::Write(first_attempt(packet, retry_count)), tries) matches
            CommandStepView::Done(answer) ==> carried_out(
            CommandStepView::Write(first_attempt(other, retry_count)),
            tries,
        ) == CommandStepView::Done(answer),
{
    lemma_packet_does_not_matter(
        first_attempt(packet, retry_count),
        first_attempt(other, retry_count),
        tries,
    );
}

proof fn lemma_packet_does_not_matter(attempt: AttemptView, other: AttemptView, tries: Seq<TryView>)
    requires
        attempt.retry_count == other.retry_count,
        attempt.number == other.number,
        attempt.wf(),
    ensures
        carried_out(CommandStepView::Write(attempt), tries) matches CommandStepView::Done(answer)
            ==> carried_out(CommandStepView::Write(other), tries) == CommandStepView::Done(answer),
    decreases tries.len(),
{
    if tries.len() > 0 {
        let rest = tries.drop_first();
        let step = attempt.tried(tries[0]);
        if step is Write {
            lemma_packet_does_not_matter(step->Write_0, other.tried(tries[0])->Write_0, rest);
        } else {
            assert(carried_out(step, rest) == step);
            assert(carried_out(other.tried(tries[0]), rest) == other.tried(tries[0]));
        }
    }
}

/// A command that is never answered by the peer is written once and then repeated as often as is
/// allowed, neither more nor less: `retry_count` failures leave it unanswered, one more ends it
/// with the failure that came last.
pub proof fn law_silent_peer(packet: Seq<u8>, retry_count: usize, tries: Seq<TryView>)
    requires
        tries.len() == retry_count + 1,
        forall|i: int|
            0 <= i < tries.len() ==> #[trigger] tries[i] == (TryView {
                write: WriteOutcomeView::Written,
                read: ReadOutcomeView::TimedOut,
            }),
    ensures
        forall|n: int|
            0 <= n <= retry_count ==> carried_out(
                CommandStepView::Write(first_attempt(packet, retry_count)),
                #[trigger] tries.take(n),
            ) == CommandStepView::Write(AttemptView { packet, retry_count, number: n as usize }),
        carried_out(CommandStepView::Write(first_attempt(packet, retry_count)), tries)
            == CommandStepView::Done(Err(ErrorView::ConnectionFailed("Timeout"@))),
{
    assert forall|n: int| 0 <= n <= retry_count implies carried_out(
        CommandStepView::Write(first_attempt(packet, retry_count)),
        #[trigger] tries.take(n),
    ) == CommandStepView::Write(AttemptView { packet, retry_count, number: n as usize }) by {
        let some = tries.take(n);
        assert forall|i: int| 0 <= i < some.len() implies !#[trigger] some[i].settles() by {
            assert(some[i] == tries[i]);
        }
        crate::command::law_command_repeats(packet, retry_count, some);
    }
    assert forall|i: int| 0 <= i < retry_count implies !#[trigger] tries[i].settles() by {}
    crate::command::law_command_answer(packet, retry_count, tries, retry_count as int);
}

/// What the socket reported and what a command is answered are taken as they are.
pub proof fn law_outcomes_are_taken_as_they_are(
    buffer: Vec<u8>,
    count: usize,
    reason: String,
    response: Vec<u8>,
    result: CommandResult,
)
    ensures
        WriteOutcome::Written@ == WriteOutcomeView::Written,
        WriteOutcome::Failed(reason)@ == WriteOutcomeView::Failed(reason@),
        WriteOutcome::TimedOut@ == WriteOutcomeView::TimedOut,
        (ReadOutcome::Received { buffer, count })@ == (ReadOutcomeView::Received {
            buffer: buffer@,
            count,
        }),
        ReadOutcome::Failed(reason)@ == ReadOutcomeView::Failed(reason@),
        ReadOutcome::TimedOut@ == ReadOutcomeView::TimedOut,
        result_view(Ok(response)) == Ok::<Seq<u8>, ErrorView>(response@),
        result matches Err(error) ==> result_view(result) == Err::<Seq<u8>, ErrorView>(error@),
        CommandStep::Done(result)@ == CommandStepView::Done(result_view(result)),
{
}

/// A write has a second, and a read has room for a kilobyte.
pub proof fn law_limits_of_a_try()
    ensures
        WRITE_TIMEOUT_MILLIS == 1000,
        RESPONSE_CAPACITY == 1024,
{
}

} // verus!
