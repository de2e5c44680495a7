use std::cell::RefCell;
use std::rc::Rc;

use wasm_streams::writable::default_writer::WritableStreamDefaultWriter;
use wasm_streams::writable::into_async_write::IntoAsyncWrite;
use wasm_streams::writable::into_sink::IntoSink;
use wasm_streams::writable::into_sink::Send;
use wasm_streams::writable::into_sink::SinkError;
use wasm_streams::writable::into_sink::SinkStep;
use wasm_streams::writable::into_underlying_sink::IntoUnderlyingSink;
use wasm_streams::writable::WritableStream;

#[derive(Clone, Debug, PartialEq)]
enum RecordedEvent<T> {
    Write(T),
    Close,
}

/// A native consumer that records what it is fed.
struct Recorder<T> {
    events: Rc<RefCell<Vec<RecordedEvent<T>>>>,
}

impl<T> Recorder<T> {
    fn new() -> (Self, Rc<RefCell<Vec<RecordedEvent<T>>>>) {
        let events = Rc::new(RefCell::new(Vec::new()));
        (Recorder { events: events.clone() }, events)
    }

    fn send(&mut self, chunk: T) -> Result<(), String> {
        self.events.borrow_mut().push(RecordedEvent::Write(chunk));
        Ok(())
    }

    fn close(&mut self) -> Result<(), String> {
        self.events.borrow_mut().push(RecordedEvent::Close);
        Ok(())
    }
}

/// The host writes one chunk to the sink and settles the write request with
/// what the sink made of it.
fn host_write<T>(sink: &mut IntoUnderlyingSink<Recorder<T>>, chunk: T) -> Result<(), String> {
    match sink.begin_write(chunk) {
        None => Err("sink has finished".to_string()),
        Some((mut consumer, chunk)) => {
            let result = consumer.send(chunk);
            sink.finish_write(consumer, result)
        }
    }
}

/// The host closes the sink.
fn host_close<T>(sink: &mut IntoUnderlyingSink<Recorder<T>>) -> Result<(), String> {
    match sink.close() {
        None => Err("sink has finished".to_string()),
        Some(mut consumer) => consumer.close(),
    }
}

type Sink = IntoSink<WritableStreamDefaultWriter<'static, u32>, u32>;

fn into_sink() -> Sink {
    let writable = WritableStream::from_raw(1u32);
    let acquired: Result<_, String> = Ok(WritableStreamDefaultWriter::new(11u32));
    writable.into_sink(acquired)
}

/// One whole send, with the host answering at once: the wait for readiness,
/// the item handed on, and the flush of its write.
fn send<T>(
    sink: &mut Sink,
    host: &mut IntoUnderlyingSink<Recorder<T>>,
    item: T,
) -> Result<(), SinkError<String>> {
    match sink.ready_step() {
        SinkStep::Issue => {
            assert!(sink.writer().is_some());
            sink.ready_issued(0);
            assert!(sink.pending_ready().is_some());
            let ready: Result<(), String> = Ok(());
            sink.ready_settled(ready)?;
        }
        SinkStep::Resume => panic!("no wait was left pending"),
        step => step.at_once().unwrap()?,
    }
    let written = match sink.start_send(item).into_chunk()? {
        Some(chunk) => {
            sink.write_issued(0);
            host_write(host, chunk)
        }
        None => Ok(()),
    };
    match sink.flush_step() {
        SinkStep::Resume => {
            assert!(sink.pending_write().is_some());
            sink.write_settled(written)
        }
        _ => Ok(()),
    }
}

fn close<T>(sink: &mut Sink, host: &mut IntoUnderlyingSink<Recorder<T>>) -> Result<(), SinkError<String>> {
    match sink.close_step() {
        SinkStep::Issue => {
            sink.close_issued(0);
            assert!(sink.pending_close().is_some());
            let answer = host_close(host);
            sink.close_settled(answer)
        }
        SinkStep::Resume => panic!("no close was left pending"),
        _ => Ok(()),
    }
}

#[test]
fn test_writable_stream_into_sink() {
    let (recorder, events) = Recorder::new();
    let mut host = WritableStream::<u32>::from_sink(recorder);
    let mut sink = into_sink();

    assert_eq!(send(&mut sink, &mut host, "Hello").ok(), Some(()));
    assert_eq!(send(&mut sink, &mut host, "world!").ok(), Some(()));
    assert_eq!(close(&mut sink, &mut host).ok(), Some(()));

    assert_eq!(
        *events.borrow(),
        [RecordedEvent::Write("Hello"), RecordedEvent::Write("world!"), RecordedEvent::Close]
    );
    assert!(sink.writer().is_none());
}

#[test]
fn round_trip_of_a_longer_run_of_writes() {
    let values: Vec<u32> = (0..20).collect();
    let (recorder, events) = Recorder::new();
    let mut host = WritableStream::<u32>::from_sink(recorder);
    let mut sink = into_sink();

    for value in &values {
        assert!(send(&mut sink, &mut host, *value).is_ok());
    }
    assert!(close(&mut sink, &mut host).is_ok());

    let mut expected: Vec<RecordedEvent<u32>> = values.iter().map(|v| RecordedEvent::Write(*v)).collect();
    expected.push(RecordedEvent::Close);
    assert_eq!(*events.borrow(), expected);
}

#[test]
fn closed_sink_finishes_every_later_step() {
    let (recorder, events) = Recorder::new();
    let mut host = WritableStream::<u32>::from_sink(recorder);
    let mut sink = into_sink();
    assert!(close(&mut sink, &mut host).is_ok());

    assert_eq!(sink.ready_step(), SinkStep::Finished);
    assert!(matches!(sink.start_send("late"), Send::Dropped));
    assert_eq!(sink.flush_step(), SinkStep::Finished);
    assert_eq!(sink.close_step(), SinkStep::Finished);
    assert!(send(&mut sink, &mut host, "late").is_ok());
    assert_eq!(*events.borrow(), [RecordedEvent::Close]);
}

/// Waits for readiness, with the host signalling it at once.
fn wait_until_ready(sink: &mut Sink) {
    assert_eq!(sink.ready_step(), SinkStep::Issue);
    sink.ready_issued(0);
    let ready: Result<(), String> = Ok(());
    assert!(sink.ready_settled(ready).is_ok());
}

#[test]
fn each_item_is_one_write_request() {
    let mut sink = into_sink();
    wait_until_ready(&mut sink);
    match sink.start_send("chunk") {
        Send::Write(chunk) => assert_eq!(chunk, "chunk"),
        _ => panic!("a healthy consumer did not write"),
    }
    assert_eq!(sink.flush_step(), SinkStep::Finished);
    sink.write_issued(4);
    assert_eq!(sink.flush_step(), SinkStep::Resume);
    // A later write takes the place of the one before.
    sink.write_issued(5);
    assert_eq!(sink.pending_write().copied(), Some(5));
    let written: Result<(), String> = Ok(());
    assert!(sink.write_settled(written).is_ok());
    assert_eq!(sink.flush_step(), SinkStep::Finished);
    assert!(sink.writer().is_some());
}

#[test]
fn item_is_not_accepted_without_readiness() {
    let mut sink = into_sink();

    // No wait yet: the item comes back
    match sink.start_send("early") {
        Send::Unready(item) => assert_eq!(item, "early"),
        _ => panic!("an item was accepted before any wait for readiness"),
    }

    // One successful wait admits one item
    wait_until_ready(&mut sink);
    assert!(matches!(sink.start_send("first"), Send::Write("first")));
    assert!(matches!(sink.start_send("second"), Send::Unready("second")));

    wait_until_ready(&mut sink);
    assert!(matches!(sink.start_send("second"), Send::Write("second")));
}

#[test]
fn unready_item_is_an_error_of_its_own() {
    let mut sink = into_sink();
    let refused: Result<Option<&str>, SinkError<String>> = sink.start_send("early").into_chunk();
    assert!(matches!(refused, Err(SinkError::Unready)));

    wait_until_ready(&mut sink);
    let accepted: Result<Option<&str>, SinkError<String>> = sink.start_send("first").into_chunk();
    assert!(matches!(accepted, Ok(Some("first"))));
}

#[test]
fn steps_that_need_no_host_return_at_once() {
    let finished: Option<Result<(), SinkError<String>>> = SinkStep::Finished.at_once();
    assert!(matches!(finished, Some(Ok(()))));
    let rejected: Option<Result<(), SinkError<String>>> = SinkStep::Rejected.at_once();
    assert!(matches!(rejected, Some(Err(SinkError::Errored))));
    let issue: Option<Result<(), SinkError<String>>> = SinkStep::Issue.at_once();
    assert!(issue.is_none());
    let resume: Option<Result<(), SinkError<String>>> = SinkStep::Resume.at_once();
    assert!(resume.is_none());
}

#[test]
fn rejected_wait_fails_the_consumer() {
    let mut sink = into_sink();
    assert_eq!(sink.ready_step(), SinkStep::Issue);
    sink.ready_issued(0);
    assert_eq!(sink.ready_step(), SinkStep::Resume);
    let ready: Result<(), String> = Err("stream aborted".to_string());
    match sink.ready_settled(ready) {
        Err(SinkError::Host(error)) => assert_eq!(error, "stream aborted"),
        _ => panic!("the host's rejection was not handed on"),
    }
    assert!(sink.writer().is_none());
    assert_eq!(sink.ready_step(), SinkStep::Rejected);
    assert!(matches!(sink.start_send(1), Send::Rejected));
}

#[test]
fn rejected_close_fails_the_consumer() {
    let mut sink = into_sink();
    sink.close_issued(0);
    assert_eq!(sink.close_step(), SinkStep::Resume);
    let closed: Result<(), String> = Err("close failed".to_string());
    assert!(matches!(sink.close_settled(closed), Err(SinkError::Host(_))));
    assert!(sink.writer().is_none());
    assert_eq!(sink.ready_step(), SinkStep::Rejected);
    assert_eq!(sink.close_step(), SinkStep::Finished);
}

#[test]
fn test_writable_stream_writer() {
    let mut writable = WritableStream::from_raw(1u32);

    let refused: Result<u32, String> = Err("already locked to a writer".to_string());
    match writable.try_get_writer(refused) {
        Err(error) => assert_eq!(error, "already locked to a writer"),
        Ok(_) => panic!("a refused acquisition gave a writer"),
    }

    let acquired: Result<u32, String> = Ok(11);
    let mut writer = writable.get_writer(acquired);
    assert_eq!(writer.as_raw(), Some(&11));
    assert_eq!(writer.release_lock(), Some(11));
    assert_eq!(writer.release_lock(), None);
    assert_eq!(writable.as_raw(), &1);
    assert_eq!(writable.into_raw(), 1);

    let writable = WritableStream::from_raw(1u32);
    let refused: Result<WritableStreamDefaultWriter<'static, u32>, String> =
        Err("already locked to a writer".to_string());
    let refused: Result<Sink, _> = writable.try_into_sink(refused);
    match refused {
        Err((error, kept)) => {
            assert_eq!(error, "already locked to a writer");
            assert_eq!(kept.into_raw(), 1);
        }
        Ok(_) => panic!("a refused acquisition gave a consumer"),
    }
}

#[test]
fn abort_gives_up_the_writer() {
    let mut sink = into_sink();
    let writer = sink.abort();
    assert_eq!(writer.unwrap().as_raw(), Some(&11));
    assert!(sink.abort().is_none());
    assert_eq!(sink.ready_step(), SinkStep::Finished);
}

#[test]
fn test_writable_stream_into_async_write() {
    let (recorder, events) = Recorder::<Vec<u8>>::new();
    let mut host = WritableStream::<u32>::from_sink(recorder);
    let writable = WritableStream::from_raw(1u32);
    let acquired: Result<_, String> = Ok(WritableStreamDefaultWriter::new(11u32));
    let mut write: IntoAsyncWrite<WritableStreamDefaultWriter<'static, u32>, u32> =
        writable.into_async_write(acquired);

    for buf in [&[1u8, 2, 3][..], &[4, 5, 6][..]] {
        // Wait for readiness on the consumer underneath.
        assert_eq!(write.sink().ready_step(), SinkStep::Issue);
        write.sink().ready_issued(0);
        let ready: Result<(), String> = Ok(());
        assert!(write.sink().ready_settled(ready).is_ok());
        // Hand on a copy of the bytes.
        let sent = match write.start_write(buf) {
            Send::Write(chunk) => {
                assert_eq!(chunk, buf);
                let answer = host_write(&mut host, chunk);
                write.sink().write_issued(0);
                write.sink().write_settled(answer)
            }
            _ => panic!("a healthy consumer did not write"),
        };
        assert_eq!(write.written(buf.len(), sent).ok(), Some(3));
    }
    assert!(close(write.sink(), &mut host).is_ok());

    assert_eq!(
        *events.borrow(),
        [
            RecordedEvent::Write(vec![1, 2, 3]),
            RecordedEvent::Write(vec![4, 5, 6]),
            RecordedEvent::Close
        ]
    );

    // Nothing is written after the close.
    assert!(matches!(write.start_write(&[7]), Send::Dropped));
    let dropped: Result<(), SinkError<String>> = Ok(());
    assert_eq!(write.written(1, dropped).ok(), Some(1));
}

#[test]
fn failed_byte_consumer_rejects_bytes() {
    let writable = WritableStream::from_raw(1u32);
    let acquired: Result<_, String> = Ok(WritableStreamDefaultWriter::new(11u32));
    let mut write: IntoAsyncWrite<WritableStreamDefaultWriter<'static, u32>, u32> =
        writable.into_async_write(acquired);
    write.sink().write_issued(0);
    let failed: Result<(), String> = Err("write failed".to_string());
    let sent = write.sink().write_settled(failed);
    match write.written(3, sent) {
        Err(SinkError::Host(error)) => assert_eq!(error, "write failed"),
        _ => panic!("a failed write counted as written"),
    }
    assert!(matches!(write.start_write(&[1, 2, 3]), Send::Rejected));
    assert!(write.abort().is_none());
}

#[test]
fn aborted_sink_drops_the_consumer_unclosed() {
    let (recorder, events) = Recorder::new();
    let mut host = WritableStream::<u32>::from_sink(recorder);
    assert!(host_write(&mut host, 1u8).is_ok());
    host.abort();
    assert!(host.begin_write(2u8).is_none());
    assert!(host.close().is_none());
    assert_eq!(*events.borrow(), [RecordedEvent::Write(1)]);
}
