use std::cell::RefCell;
use std::collections::VecDeque;
use std::rc::Rc;

use wasm_streams::readable::into_underlying_source::Inner;
use wasm_streams::readable::into_underlying_source::PullAction;
use wasm_streams::readable::pipe_options::PipeOptions;
use wasm_streams::readable::sys;
use wasm_streams::readable::ReadableStream;
use wasm_streams::writable::into_underlying_sink::IntoUnderlyingSink;
use wasm_streams::writable::WritableStream;

#[derive(Clone, Debug, PartialEq)]
enum RecordedEvent {
    Write(&'static str),
    Close,
}

type Events = Rc<RefCell<Vec<RecordedEvent>>>;
type Source = Inner<VecDeque<Result<&'static str, String>>>;

/// A native consumer that records what reaches it.
struct Recorder {
    events: Events,
}

fn recording_sink() -> (IntoUnderlyingSink<Recorder>, Events) {
    let events = Events::default();
    (WritableStream::<u32>::from_sink(Recorder { events: events.clone() }), events)
}

fn source(items: &[Result<&'static str, &'static str>]) -> Source {
    let items = items.iter().map(|item| item.map_err(|error| error.to_string())).collect();
    ReadableStream::<u32>::from_stream(items).inner
}

/// The host pipes the stream over `source` into the stream over `sink` as
/// the options tell it: chunk by chunk, and at the end of the source it
/// closes or aborts the destination unless that is held back.
fn host_pipe(
    source: &mut Source,
    sink: &mut IntoUnderlyingSink<Recorder>,
    options: sys::PipeOptions<u32>,
) -> Result<(), String> {
    loop {
        let mut sequence = source.begin_pull().expect("the source has finished");
        let item = match sequence.pop_front() {
            Some(Ok(chunk)) => Ok(Some(chunk)),
            Some(Err(error)) => Err(error),
            None => Ok(None),
        };
        match source.finish_pull(sequence, item) {
            PullAction::Enqueue(chunk) => {
                let (consumer, chunk) = sink.begin_write(chunk).expect("the sink has finished");
                consumer.events.borrow_mut().push(RecordedEvent::Write(chunk));
                let accepted: Result<(), String> = Ok(());
                assert!(sink.finish_write(consumer, accepted).is_ok());
            }
            PullAction::Close => {
                if options.prevent_close != Some(true) {
                    let consumer = sink.close().expect("the sink has finished");
                    consumer.events.borrow_mut().push(RecordedEvent::Close);
                }
                return Ok(());
            }
            PullAction::Fail(error) => {
                if options.prevent_abort != Some(true) {
                    sink.abort();
                }
                return Err(error);
            }
        }
    }
}

#[test]
fn test_pipe_rust_to_js() {
    let mut source = source(&[Ok("Hello"), Ok("world!")]);
    let (mut sink, events) = recording_sink();
    let mut readable = ReadableStream::from_raw(1u32);
    let mut writable = WritableStream::from_raw(2u32);

    let request = readable.pipe_to(&mut writable);
    assert_eq!((request.source, request.destination), (&1, &2));
    assert!(host_pipe(&mut source, &mut sink, request.options).is_ok());

    // All chunks must be sent to sink, and the close comes after the last
    assert_eq!(
        *events.borrow(),
        [RecordedEvent::Write("Hello"), RecordedEvent::Write("world!"), RecordedEvent::Close]
    );

    // Both streams must be closed
    assert!(source.begin_pull().is_none());
    assert!(sink.close().is_none());
}

#[test]
fn test_pipe_prevent_close() {
    let mut source = source(&[Ok("Hello"), Ok("world!")]);
    let (mut sink, events) = recording_sink();
    let mut readable = ReadableStream::from_raw(1u32);
    let mut writable = WritableStream::from_raw(2u32);

    let mut options = PipeOptions::new();
    options.prevent_close(true);
    let request = readable.pipe_to_with_options(&mut writable, options);
    assert_eq!((request.source, request.destination), (&1, &2));
    assert!(host_pipe(&mut source, &mut sink, request.options).is_ok());

    // All chunks must be sent to sink, without closing it
    assert_eq!(*events.borrow(), [RecordedEvent::Write("Hello"), RecordedEvent::Write("world!")]);
    assert!(sink.begin_write("more").is_some());

    // Readable stream must be closed
    assert!(source.begin_pull().is_none());
}

#[test]
fn blank_pipe_request_holds_nothing_back() {
    let mut readable = ReadableStream::from_raw('r');
    let mut writable = WritableStream::from_raw('w');
    let request = readable.pipe_to::<_, u32>(&mut writable);
    assert_eq!(request.options.prevent_close, None);
    assert_eq!(request.options.prevent_cancel, None);
    assert_eq!(request.options.prevent_abort, None);
    assert_eq!(request.options.signal, None);
}

#[test]
fn pipe_request_carries_the_options() {
    let mut readable = ReadableStream::from_raw('r');
    let mut writable = WritableStream::from_raw('w');
    let mut options = PipeOptions::new();
    options.prevent_cancel(true).signal(7u32);
    let request = readable.pipe_to_with_options(&mut writable, options);
    assert_eq!(request.options.prevent_close, None);
    assert_eq!(request.options.prevent_cancel, Some(true));
    assert_eq!(request.options.prevent_abort, None);
    assert_eq!(request.options.signal, Some(7));
}

#[test]
fn pipe_of_a_failing_source_aborts_the_destination() {
    let mut source = source(&[Ok("Hello"), Err("source failed")]);
    let (mut sink, events) = recording_sink();
    let mut readable = ReadableStream::from_raw(1u32);
    let mut writable = WritableStream::from_raw(2u32);

    let request = readable.pipe_to(&mut writable);
    assert_eq!(host_pipe(&mut source, &mut sink, request.options), Err("source failed".to_string()));

    // The destination is aborted: its consumer is dropped unclosed
    assert_eq!(*events.borrow(), [RecordedEvent::Write("Hello")]);
    assert!(sink.begin_write("late").is_none());
    assert!(source.begin_pull().is_none());
}

#[test]
fn pipe_with_prevent_abort_leaves_the_destination_alone() {
    let mut source = source(&[Ok("Hello"), Err("source failed")]);
    let (mut sink, events) = recording_sink();
    let mut readable = ReadableStream::from_raw(1u32);
    let mut writable = WritableStream::from_raw(2u32);

    let mut options = PipeOptions::new();
    options.prevent_abort(true);
    let request = readable.pipe_to_with_options(&mut writable, options);
    assert_eq!(host_pipe(&mut source, &mut sink, request.options), Err("source failed".to_string()));

    assert_eq!(*events.borrow(), [RecordedEvent::Write("Hello")]);
    assert!(sink.begin_write("more").is_some());
}
