//! The host's records of a readable stream, as plain values.
use vstd::prelude::*;

verus! {

/// The record with which the host settles a read request: `done` once the
/// stream has closed, and the chunk that was read. A default reader's chunk
/// is whatever the stream holds; where `done` is set it carries no data.
#[derive(Debug)]
pub struct ReadableStreamReadResult<T> {
    pub done: bool,
    pub value: T,
}

/// The options of a pipe as the host reads them: a dictionary in which
/// each entry may be absent. An absent flag counts as `false`, an absent
/// signal as none.
#[derive(Clone, Debug)]
pub struct PipeOptions<S> {
    pub prevent_close: Option<bool>,
    pub prevent_cancel: Option<bool>,
    pub prevent_abort: Option<bool>,
    pub signal: Option<S>,
}

impl<S> PipeOptions<S> {
    /// The dictionary with no entry.
    pub open spec fn blank() -> Self {
        PipeOptions { prevent_close: None, prevent_cancel: None, prevent_abort: None, signal: None }
    }
}

} // verus!
