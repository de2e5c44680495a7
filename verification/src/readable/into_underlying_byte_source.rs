//! A native byte reader offered to the host as the source of a byte stream.
use super::into_underlying_source::abort_pull;
use crate::util::checked_cast_to_u32;
use crate::util::clamp_to_usize;
use crate::util::spec_clamp_to_usize;
use futures_util::future::AbortHandle;
use vstd::prelude::*;
use vstd::string::*;

verus! {

/// What the host is told after a pull.
#[derive(Debug)]
pub enum BytePullAction<E> {
    /// The reader gave this many bytes, staged at the start of the buffer:
    /// copy them into the host's request and respond with the count.
    Respond(u32),
    /// The reader has ended: close the stream and respond with 0 bytes.
    Close,
    /// The reader failed: the pull is rejected with its error.
    Fail(E),
}

/// What a started pull works on: the reader, the staging buffer and the
/// number of bytes that the host asks for. The read fills
/// `buffer[0..request_len]`.
#[derive(Debug)]
pub struct BytePull<R> {
    pub async_read: R,
    pub buffer: Vec<u8>,
    pub request_len: usize,
}

/// How the reader's own logic ended when a pull invoked it: it returned,
/// handing back the reader, the staging buffer as the read left it and the
/// count of bytes read, or an error; or it faulted, and reader and buffer
/// are lost.
pub ghost enum ByteRead<R, E> {
    Returned(R, Seq<u8>, Result<usize, E>),
    Faulted,
}

/// What the host sees of one pull.
pub ghost enum BytePulled<E> {
    /// The pull ran the reader and told the host this.
    Acted(BytePullAction<E>),
    /// The reader's logic faulted: the pull is rejected.
    Faulted,
    /// The source had finished before: the pull is rejected at once and the
    /// reader's logic is not invoked.
    Finished,
}

/// The inner state of the byte source: the reader until it has ended,
/// failed or been given up, and the staging buffer.
#[derive(Debug)]
pub struct Inner<R> {
    async_read: Option<R>,
    buffer: Vec<u8>,
}

/// The state of an [`Inner`].
pub ghost struct InnerView<R> {
    pub async_read: Option<R>,
    pub buffer: Seq<u8>,
}

/// The staging buffer grown to at least `len` bytes: what it held stays,
/// what is added is zero.
pub open spec fn grown(buffer: Seq<u8>, len: int) -> Seq<u8> {
    if buffer.len() >= len {
        buffer
    } else {
        buffer + Seq::new((len - buffer.len()) as nat, |i: int| 0u8)
    }
}

impl<R> InnerView<R> {
    /// The emptied state: no reader, no buffer.
    pub open spec fn discarded() -> Self {
        InnerView { async_read: None, buffer: Seq::empty() }
    }

    /// What a pull for `request_byte_length` bytes takes out of the state:
    /// nothing once the reader is gone.
    pub open spec fn pull_begun(self, request_byte_length: u32) -> Option<(R, Seq<u8>, int)> {
        match self.async_read {
            Some(async_read) => {
                let request_len = spec_clamp_to_usize(request_byte_length as int);
                Some((async_read, grown(self.buffer, request_len), request_len))
            },
            None => None,
        }
    }

    /// The state after a pull has begun: emptied where the pull took the
    /// reader, as it was where there was none to take.
    pub open spec fn after_begin(self) -> Self {
        match self.async_read {
            Some(_) => Self::discarded(),
            None => self,
        }
    }

    /// One pull as a whole: the state after it and what the host sees.
    /// `read` says how the reader's logic ends if the pull invokes it.
    pub open spec fn pull<E>(self, read: ByteRead<R, E>) -> (Self, BytePulled<E>) {
        match self.async_read {
            None => (self, BytePulled::Finished),
            Some(_) => match read {
                ByteRead::Returned(async_read, buffer, outcome) => (
                    Self::discarded().pull_finished(async_read, buffer, outcome),
                    BytePulled::Acted(pull_action(outcome)),
                ),
                ByteRead::Faulted => (Self::discarded(), BytePulled::Faulted),
            },
        }
    }

    /// What the host sees of a run of pulls, one for each entry of `reads`.
    pub open spec fn pulls<E>(self, reads: Seq<ByteRead<R, E>>) -> Seq<BytePulled<E>>
        decreases reads.len(),
    {
        if reads.len() == 0 {
            Seq::empty()
        } else {
            let (next, pulled) = self.pull(reads.first());
            seq![pulled] + next.pulls(reads.drop_first())
        }
    }

    /// The state after a run of pulls.
    pub open spec fn after_pulls<E>(self, reads: Seq<ByteRead<R, E>>) -> Self
        decreases reads.len(),
    {
        if reads.len() == 0 {
            self
        } else {
            self.pull(reads.first()).0.after_pulls(reads.drop_first())
        }
    }

    /// The state after the pull's read has returned: reader and buffer are
    /// back after data, and gone after the end or a failure.
    pub open spec fn pull_finished<E>(
        self,
        async_read: R,
        buffer: Seq<u8>,
        outcome: Result<usize, E>,
    ) -> Self {
        match outcome {
            Ok(bytes_read) => if bytes_read == 0 {
                Self::discarded()
            } else {
                InnerView { async_read: Some(async_read), buffer }
            },
            Err(_) => Self::discarded(),
        }
    }
}

/// What the host is told after the pull's read has returned.
pub open spec fn pull_action<E>(outcome: Result<usize, E>) -> BytePullAction<E> {
    match outcome {
        Ok(bytes_read) => if bytes_read == 0 {
            BytePullAction::Close
        } else {
            BytePullAction::Respond(bytes_read as u32)
        },
        Err(error) => BytePullAction::Fail(error),
    }
}

impl<R> View for Inner<R> {
    type V = InnerView<R>;

    closed spec fn view(&self) -> InnerView<R> {
        InnerView { async_read: self.async_read, buffer: self.buffer@ }
    }
}

impl<R> Inner<R> {
    /// The state that holds `async_read` and an empty staging buffer.
    pub fn new(async_read: R) -> (inner: Self)
        ensures
            inner@ == (InnerView { async_read: Some(async_read), buffer: Seq::<u8>::empty() }),
    {
        Inner { async_read: Some(async_read), buffer: Vec::new() }
    }

    /// Begins a pull for a host request of `request_byte_length` bytes.
    /// Takes the reader and the staging buffer out of the state, the buffer
    /// grown to the request's length, so that a fault in the read leaves the
    /// state empty. Returns nothing once the reader is gone: the source has
    /// finished and the pull is to be rejected without calling any reader.
    pub fn begin_pull(&mut self, request_byte_length: u32) -> (pull: Option<BytePull<R>>)
        ensures
            final(self)@ == old(self)@.after_begin(),
            match old(self)@.pull_begun(request_byte_length) {
                Some((async_read, buffer, request_len)) => pull matches Some(begun)
                    && begun.async_read == async_read && begun.buffer@ == buffer
                    && begun.request_len as int == request_len,
                None => pull.is_none(),
            },
    {
        match self.async_read.take() {
            Some(async_read) => {
                let request_len: usize = clamp_to_usize(request_byte_length);
                let mut buffer: Vec<u8> = Vec::new();
                core::mem::swap(&mut self.buffer, &mut buffer);
                let ghost kept = buffer@;
                while buffer.len() < request_len
                    invariant
                        kept.len() <= buffer@.len(),
                        buffer@.len() <= request_len || buffer@ == kept,
                        buffer@ =~= kept + Seq::new(
                            (buffer@.len() - kept.len()) as nat,
                            |i: int| 0u8,
                        ),
                    decreases request_len - buffer@.len(),
                {
                    buffer.push(0u8);
                }
                assert(buffer@ =~= grown(kept, request_len as int));
                Some(BytePull { async_read, buffer, request_len })
            },
            None => None,
        }
    }

    /// Finishes the pull once the read into `pull.buffer[0..pull.request_len]`
    /// has returned `outcome`, and says what the host is told. After data,
    /// reader and buffer go back into the state; after the end of the data or
    /// a failure the state stays empty.
    ///
    /// A read reports no more bytes than it was given room for: a count past
    /// the request's length is outside of what this accepts.
    pub fn finish_pull<E>(&mut self, pull: BytePull<R>, outcome: Result<usize, E>) -> (action:
        BytePullAction<E>)
        requires
            pull.request_len <= u32::MAX,
            outcome matches Ok(bytes_read) ==> bytes_read <= pull.request_len,
        ensures
            final(self)@ == old(self)@.pull_finished(pull.async_read, pull.buffer@, outcome),
            action == pull_action(outcome),
    {
        match outcome {
            Ok(bytes_read) => {
                if bytes_read == 0 {
                    self.discard();
                    BytePullAction::Close
                } else {
                    let bytes_read_u32: u32 = checked_cast_to_u32(bytes_read);
                    self.async_read = Some(pull.async_read);
                    self.buffer = pull.buffer;
                    BytePullAction::Respond(bytes_read_u32)
                }
            },
            Err(error) => {
                self.discard();
                BytePullAction::Fail(error)
            },
        }
    }

    /// The staging buffer: after a pull that gave data, its start holds the
    /// bytes to hand to the host.
    pub fn staged(&self) -> (buffer: &[u8])
        ensures
            buffer@ == self@.buffer,
    {
        self.buffer.as_slice()
    }

    /// Empties the state: the reader is dropped and the buffer released.
    pub fn discard(&mut self)
        ensures
            final(self)@ == InnerView::<R>::discarded(),
    {
        self.async_read = None;
        self.buffer = Vec::new();
    }
}

/// Whether a read gave data: it returned a count of bytes that is not zero.
pub open spec fn gave_data<R, E>(read: ByteRead<R, E>) -> bool {
    read matches ByteRead::Returned(_, _, Ok(bytes_read)) && bytes_read != 0
}

/// An empty byte source stays empty: every pull is rejected as finished.
pub proof fn lemma_finished_stays<R, E>(start: InnerView<R>, reads: Seq<ByteRead<R, E>>)
    requires
        start.async_read.is_none(),
    ensures
        start.pulls(reads).len() == reads.len(),
        forall|i: int|
            0 <= i < reads.len() ==> (#[trigger] start.pulls(reads)[i]) == BytePulled::<
                E,
            >::Finished,
        start.after_pulls(reads) == start,
    decreases reads.len(),
{
    if reads.len() > 0 {
        let rest = reads.drop_first();
        lemma_finished_stays(start, rest);
        assert forall|i: int| 0 <= i < reads.len() implies (#[trigger] start.pulls(reads)[i])
            == BytePulled::<E>::Finished by {
            if i > 0 {
                assert(start.pulls(reads)[i] == start.pulls(rest)[i - 1]);
            }
        }
    }
}

/// A fault in the reader's logic is contained. Take a byte source that
/// holds a reader, and a run of pulls in which the first `n` invocations of
/// the logic each give data and the next one faults. Then the host is
/// answered `n` times with the count of bytes read, sees one rejection for
/// the fault, and after it the source is empty: every further pull is
/// rejected as finished, since the logic is not invoked again.
pub proof fn lemma_fault_contained<R, E>(start: InnerView<R>, reads: Seq<ByteRead<R, E>>, n: int)
    requires
        start.async_read.is_some(),
        0 <= n < reads.len(),
        forall|i: int| 0 <= i < n ==> gave_data(#[trigger] reads[i]),
        reads[n] is Faulted,
    ensures
        start.pulls(reads).len() == reads.len(),
        forall|i: int|
            0 <= i < n ==> (#[trigger] start.pulls(reads)[i]) == BytePulled::<E>::Acted(
                pull_action(reads[i]->Returned_2),
            ),
        start.pulls(reads)[n] == BytePulled::<E>::Faulted,
        forall|i: int|
            n < i < reads.len() ==> (#[trigger] start.pulls(reads)[i]) == BytePulled::<
                E,
            >::Finished,
        start.after_pulls(reads) == InnerView::<R>::discarded(),
    decreases reads.len(),
{
    let (next, pulled) = start.pull(reads.first());
    let rest = reads.drop_first();
    if n == 0 {
        lemma_finished_stays(next, rest);
        assert forall|i: int| n < i < reads.len() implies (#[trigger] start.pulls(reads)[i])
            == BytePulled::<E>::Finished by {
            assert(start.pulls(reads)[i] == next.pulls(rest)[i - 1]);
        }
    } else {
        assert(gave_data(reads[0]));
        assert forall|i: int| 0 <= i < n - 1 implies gave_data(#[trigger] rest[i]) by {
            assert(rest[i] == reads[i + 1]);
            assert(gave_data(reads[i + 1]));
        }
        assert(rest[n - 1] == reads[n]);
        lemma_fault_contained(next, rest, n - 1);
        assert forall|i: int| 0 <= i < n implies (#[trigger] start.pulls(reads)[i])
            == BytePulled::<E>::Acted(pull_action(reads[i]->Returned_2)) by {
            if i > 0 {
                assert(start.pulls(reads)[i] == next.pulls(rest)[i - 1]);
                assert(rest[i - 1] == reads[i]);
            } else {
                assert(gave_data(reads[0]));
            }
        }
        assert(start.pulls(reads)[n] == next.pulls(rest)[n - 1]);
        assert forall|i: int| n < i < reads.len() implies (#[trigger] start.pulls(reads)[i])
            == BytePulled::<E>::Finished by {
            assert(start.pulls(reads)[i] == next.pulls(rest)[i - 1]);
        }
    }
}

/// The host-facing part of the byte source: the chunk size that the host
/// allocates by default, the controller once the stream has started, and the
/// abort handle of the pull in flight.
#[derive(Debug)]
pub struct IntoUnderlyingByteSource<C> {
    default_buffer_len: usize,
    controller: Option<C>,
    pull_handle: Option<AbortHandle>,
}

/// The state of an [`IntoUnderlyingByteSource`].
pub ghost struct IntoUnderlyingByteSourceView<C> {
    pub default_buffer_len: usize,
    pub controller: Option<C>,
    pub pull_handle: Option<AbortHandle>,
}

impl<C> View for IntoUnderlyingByteSource<C> {
    type V = IntoUnderlyingByteSourceView<C>;

    closed spec fn view(&self) -> IntoUnderlyingByteSourceView<C> {
        IntoUnderlyingByteSourceView {
            default_buffer_len: self.default_buffer_len,
            controller: self.controller,
            pull_handle: self.pull_handle,
        }
    }
}

impl<C> IntoUnderlyingByteSource<C> {
    /// The source before the stream has started, with no pull in flight.
    pub fn new(default_buffer_len: usize) -> (source: Self)
        ensures
            source@ == (IntoUnderlyingByteSourceView {
                default_buffer_len,
                controller: None::<C>,
                pull_handle: None,
            }),
    {
        IntoUnderlyingByteSource { default_buffer_len, controller: None, pull_handle: None }
    }

    /// The kind of stream that the host is to build: a byte stream.
    pub fn type_(&self) -> (kind: String)
        ensures
            kind@ == "bytes"@,
    {
        String::from_str("bytes")
    }

    /// The size of the buffers that the host allocates for reads that bring
    /// none of their own.
    pub fn auto_allocate_chunk_size(&self) -> (size: usize)
        ensures
            size == self@.default_buffer_len,
    {
        self.default_buffer_len
    }

    /// Keeps the controller that the host starts the stream with.
    pub fn start(&mut self, controller: C)
        ensures
            final(self)@ == (IntoUnderlyingByteSourceView {
                controller: Some(controller),
                ..old(self)@
            }),
    {
        self.controller = Some(controller);
    }

    /// Keeps the abort handle of the pull that was just started, in place of
    /// that of the pull before it.
    pub fn pull(&mut self, handle: AbortHandle)
        ensures
            final(self)@ == (IntoUnderlyingByteSourceView {
                pull_handle: Some(handle),
                ..old(self)@
            }),
    {
        self.pull_handle = Some(handle);
    }

    /// The stream has been cancelled: aborts the pull in flight, if there is
    /// one, and lets go of handle and controller. Returns whether a pull was
    /// aborted; a second call aborts nothing.
    pub fn cancel(&mut self) -> (aborted: bool)
        ensures
            aborted == old(self)@.pull_handle.is_some(),
            final(self)@ == (IntoUnderlyingByteSourceView {
                controller: None,
                pull_handle: None,
                ..old(self)@
            }),
    {
        self.controller = None;
        match self.pull_handle.take() {
            Some(handle) => {
                abort_pull(&handle);
                true
            },
            None => false,
        }
    }
}

} // verus!
