//! The writable side: a host writable stream as a native consumer, and a
//! native consumer as a host sink.
pub mod default_writer;
pub mod into_async_write;
pub mod into_sink;
pub mod into_underlying_sink;

pub use default_writer::WritableStreamDefaultWriter;
pub use into_async_write::IntoAsyncWrite;
pub use into_sink::IntoSink;
use into_sink::IntoSinkView;
use into_underlying_sink::IntoUnderlyingSink;
use into_underlying_sink::IntoUnderlyingSinkView;
use vstd::prelude::*;

verus! {

/// A writable stream: the handle `H` of a stream that the host owns.
#[derive(Debug)]
pub struct WritableStream<H> {
    raw: H,
}

impl<H> View for WritableStream<H> {
    type V = H;

    closed spec fn view(&self) -> H {
        self.raw
    }
}

impl<H> WritableStream<H> {
    /// The stream with the host's handle `raw`.
    pub fn from_raw(raw: H) -> (stream: Self)
        ensures
            stream@ == raw,
    {
        WritableStream { raw }
    }

    /// The sink from which the host builds a stream that writes into the
    /// consumer `sink`. The host keeps its default queue of one chunk: with
    /// none at all, nothing could be piped into the stream.
    pub fn from_sink<Si>(sink: Si) -> (wrapped: IntoUnderlyingSink<Si>)
        ensures
            wrapped@ == (IntoUnderlyingSinkView { sink: Some(sink) }),
    {
        IntoUnderlyingSink::new(sink)
    }

    /// The host's handle.
    pub fn as_raw(&self) -> (raw: &H)
        ensures
            *raw == self@,
    {
        &self.raw
    }

    /// Gives the host's handle back.
    pub fn into_raw(self) -> (raw: H)
        ensures
            raw == self@,
    {
        self.raw
    }

    /// Takes the host's answer to the acquisition of a writer: the writer
    /// that holds the lock, or the host's error where the stream is locked
    /// already.
    pub fn try_get_writer<'a, W, E>(&'a mut self, acquired: Result<W, E>) -> (writer: Result<
        WritableStreamDefaultWriter<'a, W>,
        E,
    >)
        ensures
            final(self)@ == old(self)@,
            match acquired {
                Ok(raw) => writer matches Ok(lease) && lease.raw() == Some(raw),
                Err(error) => writer matches Err(refused) && refused == error,
            },
    {
        match acquired {
            Ok(raw) => Ok(WritableStreamDefaultWriter::new(raw)),
            Err(error) => Err(error),
        }
    }

    /// The writer that the host has granted. That the stream is locked
    /// already is outside of what this accepts.
    pub fn get_writer<'a, W, E>(&'a mut self, acquired: Result<W, E>) -> (writer:
        WritableStreamDefaultWriter<'a, W>)
        requires
            acquired is Ok,
        ensures
            final(self)@ == old(self)@,
            writer.raw() == Some(acquired->Ok_0),
    {
        match acquired {
            Ok(raw) => WritableStreamDefaultWriter::new(raw),
            Err(_) => unreached(),
        }
    }

    /// Takes the answer to the acquisition of a writer and turns the stream
    /// into the consumer over that writer, or hands the error back with the
    /// stream itself where the stream is locked already.
    pub fn try_into_sink<W, F, E>(self, acquired: Result<W, E>) -> (sink: Result<
        IntoSink<W, F>,
        (E, Self),
    >)
        ensures
            match acquired {
                Ok(writer) => sink matches Ok(consumer) && consumer@ == IntoSinkView::<
                    W,
                    F,
                >::fresh(writer),
                Err(error) => sink matches Err((refused, kept)) && refused == error && kept@
                    == self@,
            },
    {
        match acquired {
            Ok(writer) => Ok(IntoSink::new(writer)),
            Err(error) => Err((error, self)),
        }
    }

    /// The consumer over the writer that was granted. That the stream is
    /// locked already is outside of what this accepts.
    pub fn into_sink<W, F, E>(self, acquired: Result<W, E>) -> (consumer: IntoSink<W, F>)
        requires
            acquired is Ok,
        ensures
            consumer@ == IntoSinkView::<W, F>::fresh(acquired->Ok_0),
    {
        match acquired {
            Ok(writer) => IntoSink::new(writer),
            Err(_) => unreached(),
        }
    }

    /// Takes the answer to the acquisition of a writer and turns the stream
    /// into the byte consumer over that writer, or hands the error back with
    /// the stream itself where the stream is locked already.
    pub fn try_into_async_write<W, F, E>(self, acquired: Result<W, E>) -> (write: Result<
        IntoAsyncWrite<W, F>,
        (E, Self),
    >)
        ensures
            match acquired {
                Ok(writer) => write matches Ok(bytes) && bytes@ == IntoSinkView::<W, F>::fresh(
                    writer,
                ),
                Err(error) => write matches Err((refused, kept)) && refused == error && kept@
                    == self@,
            },
    {
        match self.try_into_sink(acquired) {
            Ok(sink) => Ok(IntoAsyncWrite::new(sink)),
            Err(refused) => Err(refused),
        }
    }

    /// The byte consumer over the writer that was granted. That the stream
    /// is locked already is outside of what this accepts.
    pub fn into_async_write<W, F, E>(self, acquired: Result<W, E>) -> (bytes: IntoAsyncWrite<W, F>)
        requires
            acquired is Ok,
        ensures
            bytes@ == IntoSinkView::<W, F>::fresh(acquired->Ok_0),
    {
        IntoAsyncWrite::new(self.into_sink(acquired))
    }
}

} // verus!
