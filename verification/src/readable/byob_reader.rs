//! The byte reader of a readable byte stream, which reads into a buffer that
//! the caller brings.
use super::into_async_read::ByteReadResult;
use super::into_async_read::IntoAsyncRead;
use super::into_async_read::IntoAsyncReadView;
use crate::buffer::copy_filled;
use crate::buffer::spec_copy_filled;
use crate::buffer::spec_min;
use crate::buffer::ByteView;
use crate::lock::Lease;
use crate::util::clamp_to_u32;
use crate::util::spec_clamp_to_u32;
use core::marker::PhantomData;
use vstd::prelude::*;

verus! {

/// A byte reader: the lease on a readable byte stream that reads it into
/// buffers. `R` is the host's reader. A reader that a stream hands out keeps
/// the stream borrowed for `'stream`, so that the stream gives no second
/// reader while this one lives.
#[derive(Debug)]
pub struct ReadableStreamBYOBReader<'stream, R> {
    lease: Lease<R>,
    _stream: PhantomData<&'stream mut ()>,
}

/// A read that has been planned: the view that the host reads into, and the
/// place and size of the buffer it was cut from, kept to rebuild the buffer
/// on the storage that the host hands back.
#[derive(Debug)]
pub struct ByobRequest<B> {
    pub view: ByteView<B>,
    pub buffer_offset: u32,
    pub buffer_len: u32,
}

/// The request for a read into a destination of `dst_len` bytes with
/// `buffer`: the buffer's window cut down to the destination's length,
/// limited to the host's 32-bit domain.
pub open spec fn read_request<B>(dst_len: int, buffer: ByteView<B>) -> ByobRequest<B> {
    ByobRequest {
        view: buffer.spec_limit(spec_clamp_to_u32(dst_len) as u32),
        buffer_offset: buffer.byte_offset,
        buffer_len: buffer.byte_length,
    }
}

/// What a read returns for the host's answer: the bytes read and the buffer
/// to use next. A view that came back is rebuilt at the requested buffer's
/// place and size on the storage that the host returned; at the end of the
/// stream it carries no data. Without a view the read was discarded by a
/// cancellation: nothing was read and no buffer comes back.
pub open spec fn read_outcome<B, E>(
    buffer_offset: u32,
    buffer_len: u32,
    settled: Result<ByteReadResult<B>, E>,
    dst_len: int,
) -> Result<(int, Option<ByteView<B>>), E> {
    match settled {
        Ok(result) => match result.value {
            Some(filled) => Ok(
                (
                    if result.done {
                        0
                    } else {
                        spec_min(filled.bytes@.len() as int, dst_len)
                    },
                    Some(filled.spec_anchored(buffer_offset, buffer_len)),
                ),
            ),
            None => Ok((0, None)),
        },
        Err(error) => Err(error),
    }
}

/// The destination after a read: the filled bytes copied over its start
/// where data came back, unchanged otherwise.
pub open spec fn read_dst<B, E>(settled: Result<ByteReadResult<B>, E>, dst: Seq<u8>) -> Seq<u8> {
    match settled {
        Ok(result) => match result.value {
            Some(filled) => if result.done {
                dst
            } else {
                spec_copy_filled(dst, filled.bytes@)
            },
            None => dst,
        },
        Err(_) => dst,
    }
}

impl<'stream, R> ReadableStreamBYOBReader<'stream, R> {
    /// The host's reader, while the lock is held.
    pub closed spec fn raw(&self) -> Option<R> {
        self.lease.raw()
    }

    /// The reader that holds the lock which the host gave with `raw`.
    pub fn new(raw: R) -> (reader: Self)
        ensures
            reader.raw() == Some(raw),
    {
        ReadableStreamBYOBReader { lease: Lease::new(raw), _stream: PhantomData }
    }

    /// The host's reader, while the lock is held.
    pub fn as_raw(&self) -> (raw: Option<&R>)
        ensures
            match raw {
                Some(held) => self.raw() == Some(*held),
                None => self.raw().is_none(),
            },
    {
        self.lease.as_raw()
    }

    /// The size of the temporary host buffer with which a read into a
    /// destination of `dst_len` bytes is made when the caller brings none:
    /// the destination's length, limited to the host's 32-bit domain.
    pub fn temporary_buffer_len(&self, dst_len: usize) -> (buffer_len: u32)
        ensures
            buffer_len as int == spec_clamp_to_u32(dst_len as int),
    {
        clamp_to_u32(dst_len)
    }

    /// Plans a read into a destination of `dst_len` bytes with `buffer`.
    /// The buffer is given away with the request: the host takes over its
    /// storage, and only what the host hands back is used afterwards.
    pub fn read_request<B>(&self, dst_len: usize, buffer: ByteView<B>) -> (request: ByobRequest<B>)
        ensures
            request == read_request(dst_len as int, buffer),
    {
        let buffer_offset: u32 = buffer.byte_offset;
        let buffer_len: u32 = buffer.byte_length;
        let dst_len: u32 = clamp_to_u32(dst_len);
        ByobRequest { view: buffer.limit(dst_len), buffer_offset, buffer_len }
    }

    /// Takes the host's answer to a read that was planned with a buffer at
    /// `buffer_offset` of `buffer_len` bytes, copies what was filled into
    /// `dst`, as much as fits, and returns the number of bytes copied with
    /// the buffer for the next read.
    ///
    /// * Data: `Ok((bytes_read, Some(buffer)))`.
    /// * The stream has closed: `Ok((0, Some(buffer)))`.
    /// * The read was discarded by a cancellation, so that no view came
    ///   back: `Ok((0, None))`.
    /// * The host's error, as it is.
    pub fn read_with_buffer<B, E>(
        &mut self,
        buffer_offset: u32,
        buffer_len: u32,
        settled: Result<ByteReadResult<B>, E>,
        dst: &mut [u8],
    ) -> (read: Result<(usize, Option<ByteView<B>>), E>)
        ensures
            final(self).raw() == old(self).raw(),
            final(dst)@ == read_dst(settled, old(dst)@),
            match read_outcome(buffer_offset, buffer_len, settled, old(dst)@.len() as int) {
                Ok((len, buffer)) => read matches Ok((n, reusable)) && n as int == len && reusable
                    == buffer,
                Err(error) => read == Err::<(usize, Option<ByteView<B>>), E>(error),
            },
    {
        match settled {
            Ok(result) => {
                match result.value {
                    Some(filled) => {
                        let copied: usize = if result.done {
                            0
                        } else {
                            copy_filled(dst, filled.bytes.as_slice())
                        };
                        let buffer = ByteView {
                            storage: filled.storage,
                            byte_offset: buffer_offset,
                            byte_length: buffer_len,
                        };
                        Ok((copied, Some(buffer)))
                    },
                    None => Ok((0, None)),
                }
            },
            Err(error) => Err(error),
        }
    }

    /// Takes the host's answer to a read that was made with a temporary
    /// buffer, copies what was filled into `dst`, as much as fits, and
    /// returns the number of bytes copied: 0 once the stream has closed or
    /// the read was discarded by a cancellation.
    pub fn read<B, E>(&mut self, settled: Result<ByteReadResult<B>, E>, dst: &mut [u8]) -> (read:
        Result<usize, E>)
        ensures
            final(self).raw() == old(self).raw(),
            final(dst)@ == read_dst(settled, old(dst)@),
            match read_outcome(0, 0, settled, old(dst)@.len() as int) {
                Ok((len, _)) => read matches Ok(n) && n as int == len,
                Err(error) => read == Err::<usize, E>(error),
            },
    {
        match self.read_with_buffer(0, 0, settled, dst) {
            Ok((bytes_read, _)) => Ok(bytes_read),
            Err(error) => Err(error),
        }
    }

    /// Releases the lock. Returns the host's reader on which to release it:
    /// the held one on the first release, none on every later one.
    pub fn release_lock(&mut self) -> (raw: Option<R>)
        ensures
            raw == old(self).raw(),
            final(self).raw().is_none(),
    {
        self.lease.release()
    }

    /// Takes the host's answer to an attempt to release the lock. A refusal
    /// leaves the reader locked to the stream and is handed on.
    pub fn try_release_lock<E>(&mut self, attempt: Result<(), E>) -> (released: Result<(), E>)
        ensures
            released == attempt,
            attempt is Ok ==> final(self).raw().is_none(),
            attempt is Err ==> final(self).raw() == old(self).raw(),
    {
        self.lease.try_release(attempt)
    }

    /// The buffer-filling reader over this reader. Abandoning it does not
    /// cancel the stream: once the reader is gone the stream can be read by
    /// another.
    pub fn into_async_read<B, F>(self) -> (read: IntoAsyncRead<Self, B, F>)
        ensures
            read@ == (IntoAsyncReadView {
                reader: Some(self),
                buffer: None::<ByteView<B>>,
                fut: None::<F>,
                cancel_on_drop: false,
            }),
    {
        IntoAsyncRead::new(self, false)
    }
}

} // verus!
