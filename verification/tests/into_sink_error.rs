use wasm_streams::writable::default_writer::WritableStreamDefaultWriter;
use wasm_streams::writable::into_sink::IntoSink;
use wasm_streams::writable::into_sink::SinkError;
use wasm_streams::writable::into_sink::SinkStep;
use wasm_streams::writable::into_underlying_sink::IntoUnderlyingSink;
use wasm_streams::writable::WritableStream;

/// A native consumer that refuses the first item it is fed.
struct FailingSink {
    failed: bool,
}

impl FailingSink {
    fn send(&mut self, _item: u32) -> Result<(), String> {
        if !self.failed {
            self.failed = true;
            Err("intentional error".to_string())
        } else {
            Ok(())
        }
    }
}

type Sink = IntoSink<WritableStreamDefaultWriter<'static, u32>, u32>;

/// The host behind the writer: it hands each chunk to the sink, and once a
/// write has failed the stream is errored and rejects what comes after.
struct Host {
    sink: IntoUnderlyingSink<FailingSink>,
    errored: Option<String>,
    writes: u32,
}

impl Host {
    fn ready(&self) -> Result<(), String> {
        match &self.errored {
            Some(error) => Err(error.clone()),
            None => Ok(()),
        }
    }

    fn write(&mut self, chunk: u32) -> Result<(), String> {
        self.writes += 1;
        if let Some(error) = &self.errored {
            return Err(error.clone());
        }
        let answer = match self.sink.begin_write(chunk) {
            None => Err("sink has finished".to_string()),
            Some((mut consumer, chunk)) => {
                let result = consumer.send(chunk);
                self.sink.finish_write(consumer, result)
            }
        };
        if let Err(error) = &answer {
            self.errored = Some(error.clone());
        }
        answer
    }
}

fn send(sink: &mut Sink, host: &mut Host, item: u32) -> Result<(), SinkError<String>> {
    match sink.ready_step().at_once() {
        Some(result) => result?,
        None => {
            sink.ready_issued(0);
            sink.ready_settled(host.ready())?;
        }
    }
    let written = match sink.start_send(item).into_chunk()? {
        Some(chunk) => {
            sink.write_issued(0);
            host.write(chunk)
        }
        None => Ok(()),
    };
    match sink.flush_step() {
        SinkStep::Resume => sink.write_settled(written),
        _ => Ok(()),
    }
}

#[test]
fn test_into_sink_errors_after_failure() {
    let mut host = Host {
        sink: WritableStream::<u32>::from_sink(FailingSink { failed: false }),
        errored: None,
        writes: 0,
    };
    let writable = WritableStream::from_raw(1u32);
    let acquired: Result<_, String> = Ok(WritableStreamDefaultWriter::new(11u32));
    let mut sink: Sink = writable.into_sink(acquired);

    // First write should fail, with the consumer's own error
    match send(&mut sink, &mut host, 1) {
        Err(SinkError::Host(error)) => assert_eq!(error, "intentional error"),
        _ => panic!("the first write did not fail with the consumer's error"),
    }
    assert!(sink.writer().is_none());

    // Second write should fail because the stream is errored
    assert!(matches!(send(&mut sink, &mut host, 2), Err(SinkError::Errored)));
    // ... and the host was not asked to write again
    assert_eq!(host.writes, 1);
    assert!(matches!(send(&mut sink, &mut host, 3), Err(SinkError::Errored)));
    assert_eq!(host.writes, 1);
}

#[test]
fn failed_consumer_is_dropped_by_the_sink() {
    let mut sink = WritableStream::<u32>::from_sink(FailingSink { failed: false });
    let (mut consumer, chunk) = sink.begin_write(1u32).unwrap();
    let result = consumer.send(chunk);
    assert_eq!(sink.finish_write(consumer, result), Err("intentional error".to_string()));

    // No further write reaches the consumer, though it would accept by now.
    assert!(sink.begin_write(2u32).is_none());
    assert!(sink.close().is_none());
}
