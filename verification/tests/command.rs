use modbus_tcp_client::command::{
    execute_command, CommandResult, CommandStep, PendingWrite, ReadOutcome, WriteOutcome,
};
use modbus_tcp_client::ModbusTCPError;

fn reason(result: CommandResult) -> String {
    match result {
        Err(ModbusTCPError::ConnectionFailed(reason)) => reason,
        other => panic!("unexpected answer {:?}", other),
    }
}

fn done(step: CommandStep) -> CommandResult {
    match step {
        CommandStep::Done(result) => result,
        _ => panic!("the command goes on"),
    }
}

fn again(step: CommandStep) -> PendingWrite {
    match step {
        CommandStep::Write(pending) => pending,
        _ => panic!("no further try"),
    }
}

fn after_write(pending: PendingWrite, outcome: ReadOutcome) -> CommandStep {
    match pending.written(WriteOutcome::Written) {
        CommandStep::Read(pending) => pending.received(outcome),
        _ => panic!("no read"),
    }
}

#[test]
fn response_is_cut_to_the_bytes_read() {
    let pending = execute_command(vec![1, 2, 3], 0);
    assert_eq!(pending.packet(), vec![1, 2, 3]);
    let outcome = ReadOutcome::Received { buffer: vec![9, 8, 7, 0, 0], count: 3 };
    assert_eq!(done(after_write(pending, outcome)).ok(), Some(vec![9, 8, 7]));
}

#[test]
fn count_beyond_the_buffer_keeps_the_whole_buffer() {
    let pending = execute_command(vec![1], 0);
    let outcome = ReadOutcome::Received { buffer: vec![4, 5], count: 7 };
    assert_eq!(done(after_write(pending, outcome)).ok(), Some(vec![4, 5]));
}

#[test]
fn closed_connection_is_not_retried() {
    let pending = execute_command(vec![1], 5);
    let outcome = ReadOutcome::Received { buffer: vec![], count: 0 };
    assert_eq!(reason(done(after_write(pending, outcome))), "Connection closed");
}

#[test]
fn without_retries_the_first_failure_is_the_answer() {
    let failed = execute_command(vec![1], 0).written(WriteOutcome::Failed("broken pipe".to_string()));
    assert_eq!(reason(done(failed)), "broken pipe");
    let late = execute_command(vec![1], 0).written(WriteOutcome::TimedOut);
    assert_eq!(reason(done(late)), "Write timeout");
    let unread = after_write(execute_command(vec![1], 0), ReadOutcome::Failed("reset".to_string()));
    assert_eq!(reason(done(unread)), "reset");
    let silent = after_write(execute_command(vec![1], 0), ReadOutcome::TimedOut);
    assert_eq!(reason(done(silent)), "Timeout");
}

#[test]
fn last_failure_counts_and_every_try_sends_the_same_packet() {
    let first = execute_command(vec![7, 7], 3);
    let second = again(first.written(WriteOutcome::Failed("one".to_string())));
    assert_eq!(second.packet(), vec![7, 7]);
    let third = again(after_write(second, ReadOutcome::Failed("two".to_string())));
    assert_eq!(third.packet(), vec![7, 7]);
    let fourth = again(third.written(WriteOutcome::TimedOut));
    assert_eq!(fourth.packet(), vec![7, 7]);
    assert_eq!(reason(done(after_write(fourth, ReadOutcome::TimedOut))), "Timeout");
}

#[test]
fn success_after_failures() {
    let second = again(after_write(execute_command(vec![1], 1), ReadOutcome::TimedOut));
    let outcome = ReadOutcome::Received { buffer: vec![3], count: 1 };
    assert_eq!(done(after_write(second, outcome)).ok(), Some(vec![3]));
}

#[test]
fn retry_count_bounds_the_tries() {
    for retry_count in [0usize, 1, 2, 10] {
        let mut pending = execute_command(vec![1], retry_count);
        let mut tries = 1;
        loop {
            match pending.written(WriteOutcome::TimedOut) {
                CommandStep::Write(next) => pending = next,
                step => {
                    assert_eq!(reason(done(step)), "Write timeout");
                    break;
                }
            }
            tries += 1;
        }
        assert_eq!(tries, retry_count + 1);
    }
}

#[test]
fn unbounded_looking_retry_count_is_no_problem() {
    let second = again(execute_command(vec![1], usize::MAX).written(WriteOutcome::TimedOut));
    assert_eq!(again(second.written(WriteOutcome::TimedOut)).packet(), vec![1]);
}
