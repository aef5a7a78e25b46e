use ssh_relay::error::SSHError;
use ssh_relay::relay::{
    classify_read, handle_read_ready, run_relay, write_until_complete, BatchStep, PumpOutcome,
    ReadDirective, ReadEvent, RelayOutcome, ScriptedStream, WriteBatch, WriteEvent,
};

#[test]
fn read_outcomes_classify_exactly() {
    assert_eq!(
        classify_read(&ReadEvent::Data(b"x".to_vec())),
        ReadDirective::Deliver
    );
    assert_eq!(classify_read(&ReadEvent::Data(Vec::new())), ReadDirective::Finish);
    assert_eq!(classify_read(&ReadEvent::Eof), ReadDirective::Finish);
    assert_eq!(classify_read(&ReadEvent::WouldBlock), ReadDirective::Retry);
    assert_eq!(classify_read(&ReadEvent::Failed), ReadDirective::Abort);
}

#[test]
fn write_batch_tracks_progress_until_done() {
    let mut batch = WriteBatch::new(b"abcdef".to_vec());
    assert!(!batch.is_done());
    assert_eq!(batch.apply(&WriteEvent::Accepted(2)), BatchStep::Again);
    assert_eq!(batch.offset(), 2);
    assert_eq!(batch.apply(&WriteEvent::WouldBlock), BatchStep::Again);
    assert_eq!(batch.offset(), 2);
    assert_eq!(batch.apply(&WriteEvent::Accepted(4)), BatchStep::Done);
    assert!(batch.is_done());
}

#[test]
fn write_batch_aborts_on_a_hard_error() {
    let mut batch = WriteBatch::new(b"abc".to_vec());
    assert_eq!(batch.apply(&WriteEvent::Accepted(1)), BatchStep::Again);
    assert_eq!(batch.apply(&WriteEvent::Failed), BatchStep::Abort);
    assert_eq!(batch.offset(), 1);
}

#[test]
fn relays_bytes_in_order_both_directions() {
    let mut a = ScriptedStream::new();
    a.reads.push(ReadEvent::Data(b"hello".to_vec()));
    a.reads.push(ReadEvent::Data(b" world".to_vec()));
    let mut b = ScriptedStream::new();
    b.reads.push(ReadEvent::Data(b"abc".to_vec()));
    b.reads.push(ReadEvent::Data(b"def".to_vec()));

    let outcome = run_relay(&mut a, &mut b, 10);

    assert_eq!(outcome, RelayOutcome::StillActive);
    assert_eq!(b.accepted, b"hello world".to_vec());
    assert_eq!(a.accepted, b"abcdef".to_vec());
}

#[test]
fn partial_writes_still_deliver_whole_batch() {
    let mut b = ScriptedStream::new();
    b.write_cap = 2;
    let batch = b"twelve bytes".to_vec();
    let r = write_until_complete(&mut b, &batch);
    assert_eq!(r, Ok(12));
    assert_eq!(b.accepted, batch);
}

#[test]
fn partial_writes_through_the_relay() {
    let mut a = ScriptedStream::new();
    a.reads.push(ReadEvent::Data(b"a longer batch of bytes".to_vec()));
    let mut b = ScriptedStream::new();
    b.write_cap = 3;

    run_relay(&mut a, &mut b, 5);

    assert_eq!(b.accepted, b"a longer batch of bytes".to_vec());
}

#[test]
fn clean_eof_stops_reading_the_closed_side() {
    let mut a = ScriptedStream::new();
    a.reads.push(ReadEvent::Data(b"x".to_vec()));
    a.reads.push(ReadEvent::Eof);
    a.reads.push(ReadEvent::Data(b"never read".to_vec()));
    let mut b = ScriptedStream::new();

    let outcome = run_relay(&mut a, &mut b, 10);

    assert_eq!(outcome, RelayOutcome::CleanEof);
    assert_eq!(b.accepted, b"x".to_vec());
    assert_eq!(a.next_read, 2);
}

#[test]
fn zero_byte_read_is_a_clean_eof() {
    let mut a = ScriptedStream::new();
    a.reads.push(ReadEvent::Data(Vec::new()));
    let mut b = ScriptedStream::new();

    let outcome = run_relay(&mut a, &mut b, 10);

    assert_eq!(outcome, RelayOutcome::CleanEof);
    assert!(b.accepted.is_empty());
}

#[test]
fn would_block_reads_are_not_fatal() {
    let mut a = ScriptedStream::new();
    a.reads.push(ReadEvent::WouldBlock);
    a.reads.push(ReadEvent::WouldBlock);
    a.reads.push(ReadEvent::WouldBlock);
    a.reads.push(ReadEvent::Data(b"late data".to_vec()));
    let mut b = ScriptedStream::new();

    let outcome = run_relay(&mut a, &mut b, 10);

    assert_eq!(outcome, RelayOutcome::StillActive);
    assert_eq!(b.accepted, b"late data".to_vec());
}

#[test]
fn would_block_writes_are_retried_until_the_batch_lands() {
    let mut a = ScriptedStream::new();
    a.reads.push(ReadEvent::Data(b"payload".to_vec()));
    let mut b = ScriptedStream::new();
    b.write_blocks = 4;

    let outcome = run_relay(&mut a, &mut b, 10);

    assert_eq!(outcome, RelayOutcome::StillActive);
    assert_eq!(b.accepted, b"payload".to_vec());
}

#[test]
fn read_failure_stops_both_directions_at_once() {
    let mut a = ScriptedStream::new();
    a.reads.push(ReadEvent::Data(b"ok".to_vec()));
    a.reads.push(ReadEvent::Failed);
    a.reads.push(ReadEvent::Data(b"never delivered".to_vec()));
    let mut b = ScriptedStream::new();
    b.reads.push(ReadEvent::Data(b"b1".to_vec()));
    b.reads.push(ReadEvent::Data(b"b2".to_vec()));

    let outcome = run_relay(&mut a, &mut b, 10);

    assert_eq!(outcome, RelayOutcome::TransportFailed);
    // The error came in iteration two, right after one exchange; nothing was
    // consumed or delivered past it on either side.
    assert_eq!(b.accepted, b"ok".to_vec());
    assert_eq!(a.accepted, b"b1".to_vec());
    assert_eq!(a.next_read, 2);
    assert_eq!(b.next_read, 1);
}

#[test]
fn write_failure_stops_the_relay_with_nothing_accepted() {
    let mut a = ScriptedStream::new();
    a.reads.push(ReadEvent::Data(b"x".to_vec()));
    let mut b = ScriptedStream::new();
    b.write_fail = true;

    let outcome = run_relay(&mut a, &mut b, 10);

    assert_eq!(outcome, RelayOutcome::TransportFailed);
    assert!(b.accepted.is_empty());
}

#[test]
fn failed_write_reports_the_opaque_error() {
    let mut b = ScriptedStream::new();
    b.write_fail = true;
    let r = write_until_complete(&mut b, &b"data".to_vec());
    assert_eq!(r, Err(SSHError::Whatever));
    assert!(b.accepted.is_empty());
}

#[test]
fn pump_is_idle_on_an_exhausted_script() {
    let mut a = ScriptedStream::new();
    let mut b = ScriptedStream::new();
    let r = handle_read_ready(&mut a, &mut b);
    assert_eq!(r, PumpOutcome::Idle);
    assert!(b.accepted.is_empty());
}

#[test]
fn pump_reports_eof_and_delivers_nothing() {
    let mut a = ScriptedStream::new();
    a.reads.push(ReadEvent::Eof);
    let mut b = ScriptedStream::new();
    let r = handle_read_ready(&mut a, &mut b);
    assert_eq!(r, PumpOutcome::EofSeen);
    assert!(b.accepted.is_empty());
}

#[test]
fn ping_pong_end_to_end() {
    // The client sends PING; the remote answers PONG; the client then closes.
    let mut client = ScriptedStream::new();
    client.reads.push(ReadEvent::Data(b"PING".to_vec()));
    client.reads.push(ReadEvent::Eof);
    let mut channel = ScriptedStream::new();
    channel.reads.push(ReadEvent::Data(b"PONG".to_vec()));

    let outcome = run_relay(&mut client, &mut channel, 2);

    assert_eq!(outcome, RelayOutcome::CleanEof);
    assert_eq!(channel.accepted, b"PING".to_vec());
    assert_eq!(client.accepted, b"PONG".to_vec());
}
