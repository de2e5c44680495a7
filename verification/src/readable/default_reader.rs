//! The default reader of a readable stream.
use super::into_stream::IntoStream;
use super::into_stream::IntoStreamView;
use super::sys::ReadableStreamReadResult;
use crate::lock::Lease;
use core::marker::PhantomData;
use vstd::prelude::*;

verus! {

/// A default reader: the lease on a readable stream that reads it chunk by
/// chunk. `R` is the host's reader. A reader that a stream hands out keeps
/// the stream borrowed for `'stream`, so that the stream gives no second
/// reader while this one lives.
#[derive(Debug)]
pub struct ReadableStreamDefaultReader<'stream, R> {
    lease: Lease<R>,
    _stream: PhantomData<&'stream mut ()>,
}

/// What a read returns for the host's answer: the chunk, nothing once the
/// stream has closed, or the host's error as it is.
pub open spec fn read_outcome<T, E>(settled: Result<ReadableStreamReadResult<T>, E>) -> Result<
    Option<T>,
    E,
> {
    match settled {
        Ok(result) => if result.done {
            Ok(None)
        } else {
            Ok(Some(result.value))
        },
        Err(error) => Err(error),
    }
}

impl<'stream, R> ReadableStreamDefaultReader<'stream, R> {
    /// The host's reader, while the lock is held.
    pub closed spec fn raw(&self) -> Option<R> {
        self.lease.raw()
    }

    /// The reader that holds the lock which the host gave with `raw`.
    pub fn new(raw: R) -> (reader: Self)
        ensures
            reader.raw() == Some(raw),
    {
        ReadableStreamDefaultReader { lease: Lease::new(raw), _stream: PhantomData }
    }

    /// The host's reader, while the lock is held.
    pub fn as_raw(&self) -> (raw: Option<&R>)
        ensures
            match raw {
                Some(held) => self.raw() == Some(*held),
                None => self.raw().is_none(),
            },
    {
        self.lease.as_raw()
    }

    /// Reads the host's answer to a read request: `Ok(Some(chunk))` for a
    /// chunk, `Ok(None)` once the stream has closed, the host's error
    /// otherwise.
    pub fn read<T, E>(&mut self, settled: Result<ReadableStreamReadResult<T>, E>) -> (chunk: Result<
        Option<T>,
        E,
    >)
        ensures
            chunk == read_outcome(settled),
            final(self).raw() == old(self).raw(),
    {
        match settled {
            Ok(result) => {
                if result.done {
                    Ok(None)
                } else {
                    Ok(Some(result.value))
                }
            },
            Err(error) => Err(error),
        }
    }

    /// Releases the lock. Returns the host's reader on which to release it:
    /// the held one on the first release, none on every later one.
    pub fn release_lock(&mut self) -> (raw: Option<R>)
        ensures
            raw == old(self).raw(),
            final(self).raw().is_none(),
    {
        self.lease.release()
    }

    /// Takes the host's answer to an attempt to release the lock. A refusal
    /// leaves the reader locked to the stream and is handed on.
    pub fn try_release_lock<E>(&mut self, attempt: Result<(), E>) -> (released: Result<(), E>)
        ensures
            released == attempt,
            attempt is Ok ==> final(self).raw().is_none(),
            attempt is Err ==> final(self).raw() == old(self).raw(),
    {
        self.lease.try_release(attempt)
    }

    /// The sequence over this reader. Abandoning it does not cancel the
    /// stream: once the reader is gone the stream can be read by another.
    pub fn into_stream<F>(self) -> (stream: IntoStream<Self, F>)
        ensures
            stream@ == (IntoStreamView {
                reader: Some(self),
                fut: None::<F>,
                cancel_on_drop: false,
            }),
    {
        IntoStream::new(self, false)
    }
}

} // verus!
