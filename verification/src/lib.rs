//! Verified core of the adapters between a host platform's streams and
//! native pull-based sequences and push-based consumers.
//!
//! The host engine, its promises and its objects stay outside: every adapter
//! here is a state machine over handles it only carries, told of each host
//! answer by the code that talks to the host.
//!
//! * [`readable`]: a host readable stream read chunk by chunk or into byte
//!   buffers, as a sequence ([`readable::IntoStream`]) or a buffer-filling
//!   reader ([`readable::IntoAsyncRead`]); and a native sequence or byte
//!   reader offered to the host as a source.
//! * [`writable`]: a host writable stream written through a consumer
//!   ([`writable::IntoSink`]) or a byte consumer
//!   ([`writable::IntoAsyncWrite`]); and a native consumer offered to the
//!   host as a sink.
//! * [`transform`]: the pair of a readable and a writable side.
//! * [`lock`]: the lease that a reader or writer holds on its stream.
//! * [`buffer`], [`util`], [`queuing_strategy`]: byte buffers, lengths and
//!   error texts between the two sides, and the host's queue size.
//! * [`round_trip`]: what comes out of a stream is what went in.
//! * [`unfold`]: a sequence unfolded from a seed.
pub use readable::ReadableStream;
pub use transform::TransformStream;
pub use writable::WritableStream;

pub mod buffer;
pub mod lock;
pub mod queuing_strategy;
pub mod readable;
pub mod round_trip;
pub mod transform;
pub mod unfold;
pub mod util;
pub mod writable;
