//! The writer of a writable stream.
use super::into_async_write::IntoAsyncWrite;
use super::into_sink::IntoSink;
use super::into_sink::IntoSinkView;
use crate::lock::Lease;
use core::marker::PhantomData;
use vstd::prelude::*;

verus! {

/// A writer: the lease on a writable stream that writes it chunk by chunk.
/// `W` is the host's writer. A writer that a stream hands out keeps the
/// stream borrowed for `'stream`, so that the stream gives no second writer
/// while this one lives.
#[derive(Debug)]
pub struct WritableStreamDefaultWriter<'stream, W> {
    lease: Lease<W>,
    _stream: PhantomData<&'stream mut ()>,
}

impl<'stream, W> WritableStreamDefaultWriter<'stream, W> {
    /// The host's writer, while the lock is held.
    pub closed spec fn raw(&self) -> Option<W> {
        self.lease.raw()
    }

    /// The writer that holds the lock which the host gave with `raw`.
    pub fn new(raw: W) -> (writer: Self)
        ensures
            writer.raw() == Some(raw),
    {
        WritableStreamDefaultWriter { lease: Lease::new(raw), _stream: PhantomData }
    }

    /// The host's writer, while the lock is held.
    pub fn as_raw(&self) -> (raw: Option<&W>)
        ensures
            match raw {
                Some(held) => self.raw() == Some(*held),
                None => self.raw().is_none(),
            },
    {
        self.lease.as_raw()
    }

    /// Releases the lock. Returns the host's writer on which to release it:
    /// the held one on the first release, none on every later one.
    pub fn release_lock(&mut self) -> (raw: Option<W>)
        ensures
            raw == old(self).raw(),
            final(self).raw().is_none(),
    {
        self.lease.release()
    }

    /// The consumer over this writer.
    pub fn into_sink<F>(self) -> (sink: IntoSink<Self, F>)
        ensures
            sink@ == IntoSinkView::<Self, F>::fresh(self),
    {
        IntoSink::new(self)
    }

    /// The byte consumer over this writer.
    pub fn into_async_write<F>(self) -> (write: IntoAsyncWrite<Self, F>)
        ensures
            write@ == IntoSinkView::<Self, F>::fresh(self),
    {
        IntoAsyncWrite::new(self.into_sink())
    }
}

} // verus!
