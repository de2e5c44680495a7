use wasm_streams::readable::into_underlying_byte_source::BytePullAction;
use wasm_streams::readable::into_underlying_source::Inner;
use wasm_streams::readable::into_underlying_source::PullAction;
use wasm_streams::writable::into_underlying_sink::IntoUnderlyingSink;

/// What the host sees of one call into a source or a sink.
#[derive(Debug, PartialEq)]
enum Seen {
    Value(u32),
    Rejected,
    Finished,
}

/// A native sequence whose logic faults once it has been invoked
/// `polls_before_fault` times. A fault is a return without a value: the
/// caller has lost the sequence by then, as after an unwind.
struct FaultingStream {
    polls_before_fault: u32,
    poll_count: u32,
}

impl FaultingStream {
    fn poll_next(mut self) -> Option<(Self, Result<Option<u32>, String>)> {
        self.poll_count += 1;
        if self.poll_count > self.polls_before_fault {
            return None;
        }
        let item = Ok(Some(self.poll_count));
        Some((self, item))
    }
}

fn pull(inner: &mut Inner<FaultingStream>) -> Seen {
    match inner.begin_pull() {
        None => Seen::Finished,
        Some(stream) => match stream.poll_next() {
            None => Seen::Rejected,
            Some((stream, item)) => match inner.finish_pull(stream, item) {
                PullAction::Enqueue(chunk) => Seen::Value(chunk),
                _ => panic!("the sequence neither ended nor failed"),
            },
        },
    }
}

#[test]
fn test_stream_fault_leaves_source_clean() {
    let mut inner = Inner::new(FaultingStream { polls_before_fault: 2, poll_count: 0 });

    // First two pulls should succeed
    assert_eq!(pull(&mut inner), Seen::Value(1));
    assert_eq!(pull(&mut inner), Seen::Value(2));
    // Third pull faults: the host sees a rejection
    assert_eq!(pull(&mut inner), Seen::Rejected);
    // After that the source is empty and nothing is invoked again
    assert_eq!(pull(&mut inner), Seen::Finished);
    assert_eq!(pull(&mut inner), Seen::Finished);
}

#[test]
fn test_stream_fault_on_first_pull() {
    let mut inner = Inner::new(FaultingStream { polls_before_fault: 0, poll_count: 0 });
    assert_eq!(pull(&mut inner), Seen::Rejected);
    assert_eq!(pull(&mut inner), Seen::Finished);
}

/// A native consumer whose logic faults once it has accepted
/// `sends_before_fault` items.
struct FaultingSink {
    sends_before_fault: u32,
    send_count: u32,
    accepted: Vec<u32>,
}

impl FaultingSink {
    fn send(mut self, item: u32) -> Option<(Self, Result<(), String>)> {
        self.send_count += 1;
        if self.send_count > self.sends_before_fault {
            return None;
        }
        self.accepted.push(item);
        Some((self, Ok(())))
    }
}

fn write(sink: &mut IntoUnderlyingSink<FaultingSink>, chunk: u32) -> Seen {
    match sink.begin_write(chunk) {
        None => Seen::Finished,
        Some((consumer, chunk)) => match consumer.send(chunk) {
            None => Seen::Rejected,
            Some((consumer, result)) => match sink.finish_write(consumer, result) {
                Ok(()) => Seen::Value(chunk),
                Err(_) => Seen::Rejected,
            },
        },
    }
}

#[test]
fn test_sink_fault_leaves_sink_clean() {
    let mut sink =
        IntoUnderlyingSink::new(FaultingSink { sends_before_fault: 2, send_count: 0, accepted: Vec::new() });

    assert_eq!(write(&mut sink, 10), Seen::Value(10));
    assert_eq!(write(&mut sink, 20), Seen::Value(20));
    assert_eq!(write(&mut sink, 30), Seen::Rejected);
    assert_eq!(write(&mut sink, 40), Seen::Finished);
    assert_eq!(write(&mut sink, 50), Seen::Finished);
    // The close finds nothing to close either
    assert!(sink.close().is_none());
}

#[test]
fn sink_that_is_fed_keeps_its_consumer() {
    let mut sink =
        IntoUnderlyingSink::new(FaultingSink { sends_before_fault: 9, send_count: 0, accepted: Vec::new() });
    for chunk in 0..5 {
        assert_eq!(write(&mut sink, chunk), Seen::Value(chunk));
    }
    let consumer = sink.close().unwrap();
    assert_eq!(consumer.accepted, [0, 1, 2, 3, 4]);
    assert!(sink.close().is_none());
}

/// A native byte reader whose logic faults once it has been read from
/// `reads_before_fault` times.
struct FaultingAsyncRead {
    reads_before_fault: u32,
    read_count: u32,
}

impl FaultingAsyncRead {
    fn read(&mut self, buf: &mut [u8]) -> Option<Result<usize, String>> {
        self.read_count += 1;
        if self.read_count > self.reads_before_fault {
            return None;
        }
        let bytes_to_write = buf.len().min(4);
        buf[..bytes_to_write].fill(0x42);
        Some(Ok(bytes_to_write))
    }
}

fn pull_bytes(
    inner: &mut wasm_streams::readable::into_underlying_byte_source::Inner<FaultingAsyncRead>,
) -> Seen {
    match inner.begin_pull(8) {
        None => Seen::Finished,
        Some(mut pull) => match pull.async_read.read(&mut pull.buffer[..pull.request_len]) {
            None => Seen::Rejected,
            Some(outcome) => match inner.finish_pull(pull, outcome) {
                BytePullAction::Respond(bytes_read) => {
                    assert_eq!(&inner.staged()[..bytes_read as usize], &[0x42; 4]);
                    Seen::Value(bytes_read)
                }
                _ => panic!("the reader neither ended nor failed"),
            },
        },
    }
}

#[test]
fn test_async_read_fault_leaves_source_clean() {
    let mut inner = wasm_streams::readable::into_underlying_byte_source::Inner::new(FaultingAsyncRead {
        reads_before_fault: 2,
        read_count: 0,
    });

    assert_eq!(pull_bytes(&mut inner), Seen::Value(4));
    assert_eq!(pull_bytes(&mut inner), Seen::Value(4));
    assert_eq!(pull_bytes(&mut inner), Seen::Rejected);
    assert_eq!(pull_bytes(&mut inner), Seen::Finished);
    assert!(inner.staged().is_empty());
}

#[test]
fn failing_sequence_is_dropped_with_its_error() {
    let mut inner = Inner::new(FaultingStream { polls_before_fault: 5, poll_count: 0 });
    let stream = inner.begin_pull().unwrap();
    let item: Result<Option<u32>, String> = Err("sequence failed".to_string());
    match inner.finish_pull(stream, item) {
        PullAction::Fail(error) => assert_eq!(error, "sequence failed"),
        _ => panic!("a failure was not handed on"),
    }
    assert_eq!(pull(&mut inner), Seen::Finished);
}
