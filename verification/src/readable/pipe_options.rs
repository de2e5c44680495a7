//! The options of a pipe from a readable to a writable stream.
use super::sys;
use vstd::prelude::*;

verus! {

/// Options for piping a readable stream to a writable stream: three flags
/// that each hold back one way in which the end of one side reaches the
/// other, and a signal `S` that aborts the pipe.
#[derive(Clone, Debug)]
pub struct PipeOptions<S> {
    raw: sys::PipeOptions<S>,
}

impl<S> View for PipeOptions<S> {
    type V = sys::PipeOptions<S>;

    closed spec fn view(&self) -> sys::PipeOptions<S> {
        self.raw
    }
}

impl<S> Default for PipeOptions<S> {
    fn default() -> (options: Self)
        ensures
            options@ == sys::PipeOptions::<S>::blank(),
    {
        PipeOptions {
            raw: sys::PipeOptions {
                prevent_close: None,
                prevent_cancel: None,
                prevent_abort: None,
                signal: None,
            },
        }
    }
}

impl<S> PipeOptions<S> {
    /// A blank set of options: nothing is held back and there is no signal.
    pub fn new() -> (options: Self)
        ensures
            options@ == sys::PipeOptions::<S>::blank(),
    {
        PipeOptions {
            raw: sys::PipeOptions {
                prevent_close: None,
                prevent_cancel: None,
                prevent_abort: None,
                signal: None,
            },
        }
    }

    /// The options that the dictionary `raw` holds.
    pub fn from_raw(raw: sys::PipeOptions<S>) -> (options: Self)
        ensures
            options@ == raw,
    {
        PipeOptions { raw }
    }

    /// The dictionary that is handed to the host.
    pub fn into_raw(self) -> (raw: sys::PipeOptions<S>)
        ensures
            raw == self@,
    {
        self.raw
    }

    /// Sets whether the destination stays open when the source closes.
    pub fn prevent_close(&mut self, prevent_close: bool) -> (options: &mut Self)
        ensures
            *final(self) == *final(options),
            options@ == (sys::PipeOptions { prevent_close: Some(prevent_close), ..old(self)@ }),
    {
        self.raw.prevent_close = Some(prevent_close);
        self
    }

    /// Sets whether the source is left alone when the destination fails.
    pub fn prevent_cancel(&mut self, prevent_cancel: bool) -> (options: &mut Self)
        ensures
            *final(self) == *final(options),
            options@ == (sys::PipeOptions { prevent_cancel: Some(prevent_cancel), ..old(self)@ }),
    {
        self.raw.prevent_cancel = Some(prevent_cancel);
        self
    }

    /// Sets whether the destination is left alone when the source fails.
    pub fn prevent_abort(&mut self, prevent_abort: bool) -> (options: &mut Self)
        ensures
            *final(self) == *final(options),
            options@ == (sys::PipeOptions { prevent_abort: Some(prevent_abort), ..old(self)@ }),
    {
        self.raw.prevent_abort = Some(prevent_abort);
        self
    }

    /// Sets the signal that aborts the pipe. When it fires, the source is
    /// cancelled and the destination aborted, unless the flags hold that
    /// back.
    pub fn signal(&mut self, signal: S) -> (options: &mut Self)
        ensures
            *final(self) == *final(options),
            options@ == (sys::PipeOptions { signal: Some(signal), ..old(self)@ }),
    {
        self.raw.signal = Some(signal);
        self
    }
}

} // verus!
