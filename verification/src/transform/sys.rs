//! The host's transform stream, as plain values.
use vstd::prelude::*;

verus! {

/// A transform stream as the host made it: one readable and one writable
/// endpoint that belong together, so that what is written to the one can be
/// read, transformed or not, from the other.
#[derive(Debug)]
pub struct TransformStream<R, W> {
    pub readable: R,
    pub writable: W,
}

} // verus!
