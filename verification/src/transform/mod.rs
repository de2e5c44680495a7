//! Transform streams: a writable and a readable endpoint in one.
pub mod sys;

use crate::readable::ReadableStream;
use crate::writable::WritableStream;
use vstd::prelude::*;

verus! {

/// A transform stream: the pair of endpoints that the host made together.
#[derive(Debug)]
pub struct TransformStream<R, W> {
    raw: sys::TransformStream<R, W>,
}

impl<R, W> View for TransformStream<R, W> {
    type V = sys::TransformStream<R, W>;

    closed spec fn view(&self) -> sys::TransformStream<R, W> {
        self.raw
    }
}

impl<R, W> TransformStream<R, W> {
    /// The transform stream over the host's pair `raw`.
    pub fn from_raw(raw: sys::TransformStream<R, W>) -> (stream: Self)
        ensures
            stream@ == raw,
    {
        TransformStream { raw }
    }

    /// The host's pair.
    pub fn as_raw(&self) -> (raw: &sys::TransformStream<R, W>)
        ensures
            *raw == self@,
    {
        &self.raw
    }

    /// Gives the host's pair back.
    pub fn into_raw(self) -> (raw: sys::TransformStream<R, W>)
        ensures
            raw == self@,
    {
        self.raw
    }

    /// The readable side, as a view on the endpoint that the pair holds.
    /// Nothing changes hands: the view and the pair mean the same stream, so
    /// that each side is locked by itself.
    pub fn readable(&self) -> (readable: ReadableStream<&R>)
        ensures
            *readable@ == self@.readable,
    {
        ReadableStream::from_raw(&self.raw.readable)
    }

    /// The writable side, as a view on the endpoint that the pair holds.
    pub fn writable(&self) -> (writable: WritableStream<&W>)
        ensures
            *writable@ == self@.writable,
    {
        WritableStream::from_raw(&self.raw.writable)
    }
}

} // verus!
