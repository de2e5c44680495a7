//! A byte reader driven as a native buffer-filling reader.
use super::sys::ReadableStreamReadResult;
use crate::buffer::copy_filled;
use crate::buffer::spec_copy_filled;
use crate::buffer::spec_min;
use crate::buffer::ByteView;
use crate::buffer::FilledView;
use crate::util::clamp_to_u32;
use crate::util::spec_clamp_to_u32;
use vstd::prelude::*;

verus! {

/// The host buffer that a read request is issued with.
#[derive(Debug)]
pub enum ReadBuffer<B> {
    /// The buffer kept from the last read, cut down to the request's length.
    Reuse(ByteView<B>),
    /// None is kept, or the kept one is too small: allocate this many bytes.
    Allocate(u32),
}

/// What a read has to do before it can return.
#[derive(Debug)]
pub enum ByteReadStep<B> {
    /// No reader is held and nothing is pending: the read returns 0 bytes
    /// and the host is not contacted.
    Finished,
    /// No request is pending: issue one read into the given buffer.
    Issue(ReadBuffer<B>),
    /// A request is pending: poll it.
    Resume,
}

/// The host's answer to a read into a buffer: the filled view, or none where
/// the host handed back no view.
pub type ByteReadResult<B> = ReadableStreamReadResult<Option<FilledView<B>>>;

/// The buffer-filling reader over a byte reader `R`, with at most one
/// pending read request `F` and the host buffer `B` kept between reads.
#[must_use]
#[derive(Debug)]
pub struct IntoAsyncRead<R, B, F> {
    reader: Option<R>,
    buffer: Option<ByteView<B>>,
    fut: Option<F>,
    cancel_on_drop: bool,
}

/// The state of an [`IntoAsyncRead`].
pub ghost struct IntoAsyncReadView<R, B, F> {
    pub reader: Option<R>,
    pub buffer: Option<ByteView<B>>,
    pub fut: Option<F>,
    pub cancel_on_drop: bool,
}

/// The buffer for a request of `len` bytes: the kept one where it is large
/// enough, cut down to `len`; a fresh one of `len` bytes otherwise.
pub open spec fn choose_buffer<B>(kept: Option<ByteView<B>>, len: u32) -> ReadBuffer<B> {
    match kept {
        Some(buffer) => if buffer.byte_length >= len {
            ReadBuffer::Reuse(buffer.spec_limit(len))
        } else {
            ReadBuffer::Allocate(len)
        },
        None => ReadBuffer::Allocate(len),
    }
}

/// How many bytes a settled read hands to a destination of `dst_len` bytes.
pub open spec fn settled_len<B, E>(settled: Result<ByteReadResult<B>, E>, dst_len: int) -> Result<
    int,
    E,
> {
    match settled {
        Ok(result) => if result.done {
            Ok(0)
        } else {
            match result.value {
                Some(filled) => Ok(spec_min(filled.bytes@.len() as int, dst_len)),
                None => Ok(0),
            }
        },
        Err(error) => Err(error),
    }
}

/// The destination after a settled read: the filled bytes copied over its
/// start where the stream goes on and a view came back, unchanged otherwise.
pub open spec fn settled_dst<B, E>(settled: Result<ByteReadResult<B>, E>, dst: Seq<u8>) -> Seq<u8> {
    match settled {
        Ok(result) => if result.done {
            dst
        } else {
            match result.value {
                Some(filled) => spec_copy_filled(dst, filled.bytes@),
                None => dst,
            }
        },
        Err(_) => dst,
    }
}

impl<R, B, F> IntoAsyncReadView<R, B, F> {
    /// The step that a read into `dst_len` bytes starts with.
    pub open spec fn read_step(self, dst_len: int) -> ByteReadStep<B> {
        if self.fut.is_some() {
            ByteReadStep::Resume
        } else if self.reader.is_some() {
            ByteReadStep::Issue(choose_buffer(self.buffer, spec_clamp_to_u32(dst_len) as u32))
        } else {
            ByteReadStep::Finished
        }
    }

    /// The state after a read has started: with no request pending the kept
    /// buffer has been taken out, for the request or for good.
    pub open spec fn read_started(self) -> Self {
        if self.fut.is_some() {
            self
        } else {
            IntoAsyncReadView { buffer: None, ..self }
        }
    }

    /// The state after the host has settled the pending request. The end of
    /// the stream and a failure drop reader and buffer; data keeps the
    /// storage that came back, as a window over the whole of it; an answer
    /// without a view keeps the reader and no buffer.
    pub open spec fn request_settled<E>(self, settled: Result<ByteReadResult<B>, E>) -> Self {
        match settled {
            Ok(result) => if result.done {
                IntoAsyncReadView { reader: None, buffer: None, fut: None, ..self }
            } else {
                match result.value {
                    Some(filled) => IntoAsyncReadView {
                        buffer: Some(filled.spec_whole()),
                        fut: None,
                        ..self
                    },
                    None => IntoAsyncReadView { buffer: None, fut: None, ..self },
                }
            },
            Err(_) => IntoAsyncReadView { reader: None, buffer: None, fut: None, ..self },
        }
    }

    /// The reader that abandoning the reader in this state cancels.
    pub open spec fn cancelled_on_drop(self) -> Option<R> {
        if self.cancel_on_drop {
            self.reader
        } else {
            None
        }
    }
}

impl<R, B, F> View for IntoAsyncRead<R, B, F> {
    type V = IntoAsyncReadView<R, B, F>;

    closed spec fn view(&self) -> IntoAsyncReadView<R, B, F> {
        IntoAsyncReadView {
            reader: self.reader,
            buffer: self.buffer,
            fut: self.fut,
            cancel_on_drop: self.cancel_on_drop,
        }
    }
}

impl<R, B, F> IntoAsyncRead<R, B, F> {
    /// The idle reader over `reader`, with no buffer kept yet.
    pub fn new(reader: R, cancel_on_drop: bool) -> (read: Self)
        ensures
            read@ == (IntoAsyncReadView {
                reader: Some(reader),
                buffer: None::<ByteView<B>>,
                fut: None::<F>,
                cancel_on_drop,
            }),
    {
        IntoAsyncRead { reader: Some(reader), buffer: None, fut: None, cancel_on_drop }
    }

    /// Starts a read into a destination of `dst_len` bytes. With no request
    /// pending this takes the kept buffer: it is reused for a request of the
    /// destination's length, limited to the host's 32-bit domain, where it is
    /// large enough, and dropped otherwise.
    pub fn read_step(&mut self, dst_len: usize) -> (step: ByteReadStep<B>)
        ensures
            step == old(self)@.read_step(dst_len as int),
            final(self)@ == old(self)@.read_started(),
    {
        if self.fut.is_some() {
            return ByteReadStep::Resume;
        }
        let len: u32 = clamp_to_u32(dst_len);
        let buffer = match self.buffer.take() {
            Some(buffer) => {
                if buffer.byte_length >= len {
                    ReadBuffer::Reuse(buffer.limit(len))
                } else {
                    ReadBuffer::Allocate(len)
                }
            },
            None => ReadBuffer::Allocate(len),
        };
        if self.reader.is_some() {
            ByteReadStep::Issue(buffer)
        } else {
            ByteReadStep::Finished
        }
    }

    /// The reader on which a read request is issued.
    pub fn reader(&self) -> (reader: Option<&R>)
        ensures
            match reader {
                Some(held) => self@.reader == Some(*held),
                None => self@.reader.is_none(),
            },
    {
        self.reader.as_ref()
    }

    /// Stores the read request that was just issued to the host. A request
    /// is issued on the held reader, and none while another is pending.
    pub fn request_issued(&mut self, fut: F)
        requires
            old(self)@.reader.is_some(),
            old(self)@.fut.is_none(),
        ensures
            final(self)@ == (IntoAsyncReadView { fut: Some(fut), ..old(self)@ }),
    {
        self.fut = Some(fut);
    }

    /// The pending read request, to be polled.
    pub fn pending(&mut self) -> (fut: Option<&mut F>)
        ensures
            match old(self)@.fut {
                None => fut.is_none() && final(self)@ == old(self)@,
                Some(pending) => fut.is_some() && *fut.unwrap() == pending && final(self)@ == (
                IntoAsyncReadView { fut: Some(*final(fut.unwrap())), ..old(self)@ }),
            },
    {
        self.fut.as_mut()
    }

    /// Takes the host's answer to the pending request, copies what was
    /// filled into `dst`, as much as fits, and returns the number of bytes
    /// copied; 0 at the end of the stream and for an answer without a view.
    /// The host's error is handed on as it is.
    pub fn request_settled<E>(&mut self, settled: Result<ByteReadResult<B>, E>, dst: &mut [u8]) -> (read:
        Result<usize, E>)
        ensures
            final(self)@ == old(self)@.request_settled(settled),
            final(dst)@ == settled_dst(settled, old(dst)@),
            match settled_len(settled, old(dst)@.len() as int) {
                Ok(len) => read matches Ok(n) && n as int == len,
                Err(error) => read == Err::<usize, E>(error),
            },
    {
        self.fut = None;
        match settled {
            Ok(result) => {
                if result.done {
                    self.discard_reader();
                    Ok(0)
                } else {
                    match result.value {
                        Some(filled) => {
                            let copied = copy_filled(dst, filled.bytes.as_slice());
                            self.buffer = Some(
                                ByteView {
                                    storage: filled.storage,
                                    byte_offset: 0,
                                    byte_length: filled.storage_len,
                                },
                            );
                            Ok(copied)
                        },
                        None => {
                            self.buffer = None;
                            Ok(0)
                        },
                    }
                }
            },
            Err(error) => {
                self.discard_reader();
                Err(error)
            },
        }
    }

    /// Gives up the reader in order to cancel the stream: the reader on
    /// which to cancel, where one is still held. The kept buffer is
    /// discarded with it.
    pub fn cancel(&mut self) -> (reader: Option<R>)
        ensures
            reader == old(self)@.reader,
            final(self)@ == (IntoAsyncReadView { reader: None, buffer: None, ..old(self)@ }),
    {
        self.buffer = None;
        self.reader.take()
    }

    /// Takes the reader on which to cancel when the reader is abandoned:
    /// the held reader where `cancel_on_drop` is set, with the kept buffer
    /// discarded, none otherwise.
    pub fn take_cancelled_on_drop(&mut self) -> (reader: Option<R>)
        ensures
            reader == old(self)@.cancelled_on_drop(),
            final(self)@ == (if old(self)@.cancel_on_drop {
                IntoAsyncReadView { reader: None, buffer: None, ..old(self)@ }
            } else {
                old(self)@
            }),
    {
        if self.cancel_on_drop {
            self.buffer = None;
            self.reader.take()
        } else {
            None
        }
    }

    fn discard_reader(&mut self)
        ensures
            final(self)@ == (IntoAsyncReadView { reader: None, buffer: None, ..old(self)@ }),
    {
        self.reader = None;
        self.buffer = None;
    }
}

/// The end is final. Once the host has answered a read with the end of the
/// stream or with a failure, reader and buffer are gone and nothing is
/// pending: every later read returns 0 bytes at once, for any destination,
/// and the host is not asked again.
pub proof fn lemma_end_is_final<R, B, F, E>(
    state: IntoAsyncReadView<R, B, F>,
    settled: Result<ByteReadResult<B>, E>,
    dst_len: int,
)
    requires
        settled matches Ok(result) ==> result.done,
    ensures
        state.request_settled(settled).read_step(dst_len) == ByteReadStep::<B>::Finished,
        state.request_settled(settled).read_started() == state.request_settled(settled),
        state.request_settled(settled).buffer.is_none(),
{
}

/// Only what the host hands back is used again. After a read that brought
/// data, the next read reuses the storage that came back with the data, as
/// a window from its start cut to the request's length, or allocates anew
/// where that storage is too small. The buffer that was given to the host
/// with the request is in neither: the state has not held it since the read
/// began.
pub proof fn lemma_reuses_what_came_back<R, B, F, E>(
    state: IntoAsyncReadView<R, B, F>,
    filled: FilledView<B>,
    dst_len: nat,
)
    requires
        state.reader.is_some(),
    ensures
        state.read_started().fut.is_none() ==> state.read_started().buffer.is_none(),
        state.request_settled(
            Ok::<ByteReadResult<B>, E>(
                ReadableStreamReadResult { done: false, value: Some(filled) },
            ),
        ).read_step(dst_len as int) == ByteReadStep::Issue(
            if filled.storage_len >= spec_clamp_to_u32(dst_len as int) {
                ReadBuffer::Reuse(
                    ByteView {
                        storage: filled.storage,
                        byte_offset: 0,
                        byte_length: spec_clamp_to_u32(dst_len as int) as u32,
                    },
                )
            } else {
                ReadBuffer::Allocate(spec_clamp_to_u32(dst_len as int) as u32)
            },
        ),
{
}

} // verus!
