//! The readable side: a host readable stream as a native sequence, and a
//! native sequence as a host source.
pub mod byob_reader;
pub mod default_reader;
pub mod into_async_read;
pub mod into_stream;
pub mod into_underlying_byte_source;
pub mod into_underlying_source;
pub mod pipe_options;
pub mod sys;

use crate::buffer::ByteView;
use crate::queuing_strategy::QueuingStrategy;
use crate::writable::WritableStream;
pub use byob_reader::ReadableStreamBYOBReader;
pub use default_reader::ReadableStreamDefaultReader;
pub use into_async_read::IntoAsyncRead;
use into_async_read::IntoAsyncReadView;
pub use into_stream::IntoStream;
use into_stream::IntoStreamView;
use into_underlying_byte_source::IntoUnderlyingByteSource;
use into_underlying_byte_source::IntoUnderlyingByteSourceView;
use into_underlying_source::IntoUnderlyingSource;
pub use pipe_options::PipeOptions;
use vstd::prelude::*;

verus! {

/// A readable stream: the handle `H` of a stream that the host owns.
#[derive(Debug)]
pub struct ReadableStream<H> {
    raw: H,
}

/// What the host builds a stream over a native sequence from: the parts of
/// the source and the queuing strategy.
#[derive(Debug)]
pub struct StreamSource<S> {
    pub source: IntoUnderlyingSource,
    pub inner: into_underlying_source::Inner<S>,
    pub strategy: QueuingStrategy,
}

/// What the host builds a byte stream over a native byte reader from: the
/// parts of the source.
#[derive(Debug)]
pub struct ByteStreamSource<R, C> {
    pub source: IntoUnderlyingByteSource<C>,
    pub inner: into_underlying_byte_source::Inner<R>,
}

/// What is handed to the host to pipe a readable stream to a writable one.
/// Both streams stay borrowed for as long as the request lives.
#[derive(Debug)]
pub struct PipeRequest<'a, H, W, S> {
    pub source: &'a H,
    pub destination: &'a W,
    pub options: sys::PipeOptions<S>,
}

impl<H> View for ReadableStream<H> {
    type V = H;

    closed spec fn view(&self) -> H {
        self.raw
    }
}

impl<H> ReadableStream<H> {
    /// The stream with the host's handle `raw`.
    pub fn from_raw(raw: H) -> (stream: Self)
        ensures
            stream@ == raw,
    {
        ReadableStream { raw }
    }

    /// What a stream that pulls from `stream` is built from. The host's
    /// queue is of size zero, so that the host reads nothing ahead: the
    /// sequence keeps its own buffer and is asked for a chunk only when one
    /// is read.
    pub fn from_stream<S>(stream: S) -> (parts: StreamSource<S>)
        ensures
            parts.source.pull_handle().is_none(),
            parts.inner@ == (into_underlying_source::InnerView { stream: Some(stream) }),
            parts.strategy@ == 0,
    {
        StreamSource {
            source: IntoUnderlyingSource::new(),
            inner: into_underlying_source::Inner::new(stream),
            strategy: QueuingStrategy::new(0),
        }
    }

    /// What a byte stream that reads from `async_read` is built from. A read
    /// that brings no buffer of its own gets one of `default_buffer_len`
    /// bytes from the host.
    pub fn from_async_read<R, C>(async_read: R, default_buffer_len: usize) -> (parts:
        ByteStreamSource<R, C>)
        ensures
            parts.source@ == (IntoUnderlyingByteSourceView {
                default_buffer_len,
                controller: None::<C>,
                pull_handle: None,
            }),
            parts.inner@ == (into_underlying_byte_source::InnerView {
                async_read: Some(async_read),
                buffer: Seq::<u8>::empty(),
            }),
    {
        ByteStreamSource {
            source: IntoUnderlyingByteSource::new(default_buffer_len),
            inner: into_underlying_byte_source::Inner::new(async_read),
        }
    }

    /// Takes the host's answer to the construction of a byte stream: the
    /// stream, or the host's error where it does not support byte streams.
    pub fn try_from_async_read<E>(constructed: Result<H, E>) -> (stream: Result<Self, E>)
        ensures
            match constructed {
                Ok(raw) => stream matches Ok(built) && built@ == raw,
                Err(error) => stream matches Err(refused) && refused == error,
            },
    {
        match constructed {
            Ok(raw) => Ok(ReadableStream { raw }),
            Err(error) => Err(error),
        }
    }

    /// The host's handle.
    pub fn as_raw(&self) -> (raw: &H)
        ensures
            *raw == self@,
    {
        &self.raw
    }

    /// Gives the host's handle back.
    pub fn into_raw(self) -> (raw: H)
        ensures
            raw == self@,
    {
        self.raw
    }

    /// Takes the host's answer to the acquisition of a default reader: the
    /// reader that holds the lock, or the host's error where the stream is
    /// locked already.
    pub fn try_get_reader<'a, R, E>(&'a mut self, acquired: Result<R, E>) -> (reader: Result<
        ReadableStreamDefaultReader<'a, R>,
        E,
    >)
        ensures
            final(self)@ == old(self)@,
            match acquired {
                Ok(raw) => reader matches Ok(lease) && lease.raw() == Some(raw),
                Err(error) => reader matches Err(refused) && refused == error,
            },
    {
        match acquired {
            Ok(raw) => Ok(ReadableStreamDefaultReader::new(raw)),
            Err(error) => Err(error),
        }
    }

    /// The default reader that the host has granted. The caller has nothing
    /// to hand in where the host refused: that the stream is locked already
    /// is outside of what this accepts.
    pub fn get_reader<'a, R, E>(&'a mut self, acquired: Result<R, E>) -> (reader:
        ReadableStreamDefaultReader<'a, R>)
        requires
            acquired is Ok,
        ensures
            final(self)@ == old(self)@,
            reader.raw() == Some(acquired->Ok_0),
    {
        match acquired {
            Ok(raw) => ReadableStreamDefaultReader::new(raw),
            Err(_) => unreached(),
        }
    }

    /// Takes the host's answer to the acquisition of a byte reader: the
    /// reader that holds the lock, or the host's error where the stream is
    /// locked already or is no byte stream.
    pub fn try_get_byob_reader<'a, R, E>(&'a mut self, acquired: Result<R, E>) -> (reader: Result<
        ReadableStreamBYOBReader<'a, R>,
        E,
    >)
        ensures
            final(self)@ == old(self)@,
            match acquired {
                Ok(raw) => reader matches Ok(lease) && lease.raw() == Some(raw),
                Err(error) => reader matches Err(refused) && refused == error,
            },
    {
        match acquired {
            Ok(raw) => Ok(ReadableStreamBYOBReader::new(raw)),
            Err(error) => Err(error),
        }
    }

    /// The byte reader that the host has granted. That the stream is locked
    /// already, or is no byte stream, is outside of what this accepts.
    pub fn get_byob_reader<'a, R, E>(&'a mut self, acquired: Result<R, E>) -> (reader:
        ReadableStreamBYOBReader<'a, R>)
        requires
            acquired is Ok,
        ensures
            final(self)@ == old(self)@,
            reader.raw() == Some(acquired->Ok_0),
    {
        match acquired {
            Ok(raw) => ReadableStreamBYOBReader::new(raw),
            Err(_) => unreached(),
        }
    }

    /// What is handed to the host to pipe this stream to `dest` with blank
    /// options: nothing is held back.
    pub fn pipe_to<'a, W, S>(&'a mut self, dest: &'a mut WritableStream<W>) -> (request:
        PipeRequest<'a, H, W, S>)
        ensures
            *request.source == old(self)@,
            *request.destination == old(dest)@,
            request.options == sys::PipeOptions::<S>::blank(),
            final(self)@ == old(self)@,
            final(dest)@ == old(dest)@,
    {
        let options: PipeOptions<S> = PipeOptions::new();
        PipeRequest { source: &self.raw, destination: dest.as_raw(), options: options.into_raw() }
    }

    /// What is handed to the host to pipe this stream to `dest` with
    /// `options`.
    ///
    /// * A failure of this stream aborts `dest`, unless `prevent_abort` is
    ///   set.
    /// * A failure of `dest` cancels this stream, unless `prevent_cancel` is
    ///   set; so does a `dest` that is closed from the start.
    /// * When this stream closes, `dest` is closed, unless `prevent_close`
    ///   is set.
    pub fn pipe_to_with_options<'a, W, S>(
        &'a mut self,
        dest: &'a mut WritableStream<W>,
        options: PipeOptions<S>,
    ) -> (request: PipeRequest<'a, H, W, S>)
        ensures
            *request.source == old(self)@,
            *request.destination == old(dest)@,
            request.options == options@,
            final(self)@ == old(self)@,
            final(dest)@ == old(dest)@,
    {
        PipeRequest { source: &self.raw, destination: dest.as_raw(), options: options.into_raw() }
    }

    /// Takes the host's answer to teeing the stream: the two branches, or
    /// the host's error with the stream itself where it is locked already.
    /// Both branches see the same chunks, each chunk the same object.
    pub fn try_tee<E>(self, teed: Result<(H, H), E>) -> (branches: Result<(Self, Self), (E, Self)>)
        ensures
            match teed {
                Ok((left, right)) => branches matches Ok((first, second)) && first@ == left
                    && second@ == right,
                Err(error) => branches matches Err((refused, stream)) && refused == error
                    && stream@ == self@,
            },
    {
        match teed {
            Ok((left, right)) => Ok((ReadableStream { raw: left }, ReadableStream { raw: right })),
            Err(error) => Err((error, self)),
        }
    }

    /// The two branches that the host has made of the stream. That the
    /// stream is locked already is outside of what this accepts.
    pub fn tee<E>(self, teed: Result<(H, H), E>) -> (branches: (Self, Self))
        requires
            teed is Ok,
        ensures
            branches.0@ == (teed->Ok_0).0,
            branches.1@ == (teed->Ok_0).1,
    {
        match teed {
            Ok((left, right)) => (ReadableStream { raw: left }, ReadableStream { raw: right }),
            Err(_) => unreached(),
        }
    }

    /// Takes the answer to the acquisition of a reader and turns the stream
    /// into the sequence over that reader, or hands the error back with the
    /// stream itself where the stream is locked already. Abandoning the
    /// sequence cancels the stream, which nothing else can reach any more.
    pub fn try_into_stream<R, F, E>(self, acquired: Result<R, E>) -> (stream: Result<
        IntoStream<R, F>,
        (E, Self),
    >)
        ensures
            match acquired {
                Ok(reader) => stream matches Ok(sequence) && sequence@ == (IntoStreamView {
                    reader: Some(reader),
                    fut: None::<F>,
                    cancel_on_drop: true,
                }),
                Err(error) => stream matches Err((refused, kept)) && refused == error && kept@
                    == self@,
            },
    {
        match acquired {
            Ok(reader) => Ok(IntoStream::new(reader, true)),
            Err(error) => Err((error, self)),
        }
    }

    /// The sequence over the reader that was granted. That the stream is
    /// locked already is outside of what this accepts.
    pub fn into_stream<R, F, E>(self, acquired: Result<R, E>) -> (sequence: IntoStream<R, F>)
        requires
            acquired is Ok,
        ensures
            sequence@ == (IntoStreamView {
                reader: Some(acquired->Ok_0),
                fut: None::<F>,
                cancel_on_drop: true,
            }),
    {
        match acquired {
            Ok(reader) => IntoStream::new(reader, true),
            Err(_) => unreached(),
        }
    }

    /// Takes the answer to the acquisition of a byte reader and turns the
    /// stream into the buffer-filling reader over it, or hands the error
    /// back with the stream itself where the stream is locked already or is
    /// no byte stream. Abandoning the reader cancels the stream.
    pub fn try_into_async_read<R, B, F, E>(self, acquired: Result<R, E>) -> (read: Result<
        IntoAsyncRead<R, B, F>,
        (E, Self),
    >)
        ensures
            match acquired {
                Ok(reader) => read matches Ok(filling) && filling@ == (IntoAsyncReadView {
                    reader: Some(reader),
                    buffer: None::<ByteView<B>>,
                    fut: None::<F>,
                    cancel_on_drop: true,
                }),
                Err(error) => read matches Err((refused, kept)) && refused == error && kept@
                    == self@,
            },
    {
        match acquired {
            Ok(reader) => Ok(IntoAsyncRead::new(reader, true)),
            Err(error) => Err((error, self)),
        }
    }

    /// The buffer-filling reader over the byte reader that was granted. That
    /// the stream is locked already, or is no byte stream, is outside of
    /// what this accepts.
    pub fn into_async_read<R, B, F, E>(self, acquired: Result<R, E>) -> (filling: IntoAsyncRead<
        R,
        B,
        F,
    >)
        requires
            acquired is Ok,
        ensures
            filling@ == (IntoAsyncReadView {
                reader: Some(acquired->Ok_0),
                buffer: None::<ByteView<B>>,
                fut: None::<F>,
                cancel_on_drop: true,
            }),
    {
        match acquired {
            Ok(reader) => IntoAsyncRead::new(reader, true),
            Err(_) => unreached(),
        }
    }
}

} // verus!
