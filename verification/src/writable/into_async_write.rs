//! A writer driven as a native byte consumer.
use super::into_sink::IntoSink;
use super::into_sink::IntoSinkView;
use super::into_sink::Send;
use super::into_sink::SinkError;
use vstd::prelude::*;

verus! {

/// The byte consumer over the consumer of chunks: each slice of bytes
/// becomes one chunk.
#[must_use]
#[derive(Debug)]
pub struct IntoAsyncWrite<W, F> {
    sink: IntoSink<W, F>,
}

impl<W, F> View for IntoAsyncWrite<W, F> {
    type V = IntoSinkView<W, F>;

    closed spec fn view(&self) -> IntoSinkView<W, F> {
        self.sink@
    }
}

/// What becomes of the bytes `buf` when the byte consumer is given them:
/// what becomes of the chunk that holds a copy of them.
pub open spec fn start_write<W, F>(state: IntoSinkView<W, F>, buf: Seq<u8>) -> Send<Seq<u8>> {
    state.start_send(buf)
}

/// What a write of `buf_len` bytes returns once its chunk has been given:
/// all of the bytes count as written where the consumer took or dropped
/// the chunk.
pub open spec fn written<E>(buf_len: usize, sent: Result<(), SinkError<E>>) -> Result<
    usize,
    SinkError<E>,
> {
    match sent {
        Ok(_) => Ok(buf_len),
        Err(error) => Err(error),
    }
}

impl<W, F> IntoAsyncWrite<W, F> {
    /// The byte consumer over `sink`.
    pub fn new(sink: IntoSink<W, F>) -> (write: Self)
        ensures
            write@ == sink@,
    {
        IntoAsyncWrite { sink }
    }

    /// The consumer of chunks underneath, whose waits for readiness, flushes
    /// and closes are those of the byte consumer.
    pub fn sink(&mut self) -> (sink: &mut IntoSink<W, F>)
        ensures
            sink@ == old(self)@,
            final(self)@ == final(sink)@,
    {
        &mut self.sink
    }

    /// Gives the bytes `buf` to the consumer, as a chunk that holds a copy
    /// of them: the slice itself is not kept. Says what becomes of the
    /// chunk; where it is written, it is handed to the host in one write
    /// request.
    pub fn start_write(&mut self, buf: &[u8]) -> (send: Send<Vec<u8>>)
        ensures
            final(self)@ == old(self)@.sent(),
            match start_write(old(self)@, buf@) {
                Send::Write(bytes) => send matches Send::Write(chunk) && chunk@ == bytes,
                Send::Unready(bytes) => send matches Send::Unready(chunk) && chunk@ == bytes,
                Send::Dropped => send is Dropped,
                Send::Rejected => send is Rejected,
            },
    {
        let mut chunk: Vec<u8> = Vec::new();
        let mut i: usize = 0;
        while i < buf.len()
            invariant
                i <= buf@.len(),
                chunk@ == buf@.subrange(0, i as int),
            decreases buf@.len() - i,
        {
            chunk.push(buf[i]);
            assert(buf@.subrange(0, i as int).push(buf@[i as int]) =~= buf@.subrange(0, i + 1));
            i = i + 1;
        }
        assert(buf@.subrange(0, buf@.len() as int) =~= buf@);
        self.sink.start_send(chunk)
    }

    /// What a write of `buf_len` bytes returns once its chunk has been
    /// given with the outcome `sent`.
    pub fn written<E>(&self, buf_len: usize, sent: Result<(), SinkError<E>>) -> (count: Result<
        usize,
        SinkError<E>,
    >)
        ensures
            count == written(buf_len, sent),
    {
        match sent {
            Ok(_) => Ok(buf_len),
            Err(error) => Err(error),
        }
    }

    /// Gives up the writer in order to abort the stream: the writer on which
    /// to abort, where one is still held.
    pub fn abort(&mut self) -> (writer: Option<W>)
        ensures
            writer == old(self)@.writer,
            final(self)@ == (IntoSinkView { writer: None, ready: false, ..old(self)@ }),
    {
        self.sink.abort()
    }
}

} // verus!
