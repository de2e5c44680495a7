//! A writer driven as a native push-based consumer.
use vstd::prelude::*;

verus! {

/// What a step of the consumer has to do before it can return.
#[derive(Clone, Copy, Debug, PartialEq, Eq, Structural)]
pub enum SinkStep {
    /// The writer is gone after a close or an abort: the step returns at
    /// once, successfully, and the host is not contacted.
    Finished,
    /// The writer is gone after a failure: the step fails at once, and the
    /// host is not contacted.
    Rejected,
    /// Nothing of this kind is pending: issue the host operation.
    Issue,
    /// An operation of this kind is pending: poll it.
    Resume,
}

/// Why a step of the consumer failed.
#[derive(Debug)]
pub enum SinkError<E> {
    /// The host rejected the operation with this error.
    Host(E),
    /// The consumer has failed before and accepts nothing more.
    Errored,
    /// An item was given without a successful wait for readiness before it.
    Unready,
}

/// What becomes of an item that the consumer is given.
#[derive(Debug)]
pub enum Send<T> {
    /// The writer is held and ready: hand this chunk, the item, to the host
    /// in exactly one write request.
    Write(T),
    /// The writer is gone after a close or an abort: the item is dropped.
    Dropped,
    /// The writer is gone after a failure: the send fails.
    Rejected,
    /// The writer is held, but no wait for readiness has succeeded since
    /// the last item: the item is not accepted and comes back.
    Unready(T),
}

impl SinkStep {
    /// What a step returns at once, without the host: success where the
    /// consumer has finished, the failure where it has failed, and nothing
    /// where the host is to be asked or waited for.
    pub open spec fn spec_at_once<E>(self) -> Option<Result<(), SinkError<E>>> {
        match self {
            SinkStep::Finished => Some(Ok(())),
            SinkStep::Rejected => Some(Err(SinkError::Errored)),
            _ => None,
        }
    }

    /// What a step returns at once, without the host.
    pub fn at_once<E>(self) -> (result: Option<Result<(), SinkError<E>>>)
        ensures
            result == self.spec_at_once::<E>(),
    {
        match self {
            SinkStep::Finished => Some(Ok(())),
            SinkStep::Rejected => Some(Err(SinkError::Errored)),
            _ => None,
        }
    }
}

impl<T> Send<T> {
    /// The chunk to write, none for an item that was dropped, or why the
    /// item was not accepted.
    pub open spec fn spec_into_chunk<E>(self) -> Result<Option<T>, SinkError<E>> {
        match self {
            Send::Write(chunk) => Ok(Some(chunk)),
            Send::Dropped => Ok(None),
            Send::Rejected => Err(SinkError::Errored),
            Send::Unready(_) => Err(SinkError::Unready),
        }
    }

    /// The chunk to write, none for an item that was dropped, or why the
    /// item was not accepted.
    pub fn into_chunk<E>(self) -> (chunk: Result<Option<T>, SinkError<E>>)
        ensures
            chunk == self.spec_into_chunk::<E>(),
    {
        match self {
            Send::Write(chunk) => Ok(Some(chunk)),
            Send::Dropped => Ok(None),
            Send::Rejected => Err(SinkError::Errored),
            Send::Unready(_) => Err(SinkError::Unready),
        }
    }
}

/// The consumer over a writer `W`, with at most one pending host operation
/// `F` of each kind: the wait for readiness, the last write, the close.
#[must_use]
#[derive(Debug)]
pub struct IntoSink<W, F> {
    writer: Option<W>,
    ready_fut: Option<F>,
    write_fut: Option<F>,
    close_fut: Option<F>,
    ready: bool,
    failed: bool,
}

/// The state of an [`IntoSink`]. `ready` is set while the last wait for
/// readiness has succeeded and no item was accepted since. `failed` is set
/// once the host has rejected an operation; the writer is gone from then on.
pub ghost struct IntoSinkView<W, F> {
    pub writer: Option<W>,
    pub ready_fut: Option<F>,
    pub write_fut: Option<F>,
    pub close_fut: Option<F>,
    pub ready: bool,
    pub failed: bool,
}

impl<W, F> IntoSinkView<W, F> {
    /// The state that a fresh consumer over `writer` starts in.
    pub open spec fn fresh(writer: W) -> Self {
        IntoSinkView {
            writer: Some(writer),
            ready_fut: None,
            write_fut: None,
            close_fut: None,
            ready: false,
            failed: false,
        }
    }

    /// The step that without a writer ends a wait at once.
    pub open spec fn without_writer(self) -> SinkStep {
        if self.failed {
            SinkStep::Rejected
        } else {
            SinkStep::Finished
        }
    }

    /// The step that a wait for readiness starts with.
    pub open spec fn ready_step(self) -> SinkStep {
        if self.ready_fut.is_some() {
            SinkStep::Resume
        } else if self.writer.is_some() {
            SinkStep::Issue
        } else {
            self.without_writer()
        }
    }

    /// The step that a flush starts with: with no write pending there is
    /// nothing to flush.
    pub open spec fn flush_step(self) -> SinkStep {
        if self.write_fut.is_some() {
            SinkStep::Resume
        } else {
            SinkStep::Finished
        }
    }

    /// The step that a close starts with.
    pub open spec fn close_step(self) -> SinkStep {
        if self.close_fut.is_some() {
            SinkStep::Resume
        } else if self.writer.is_some() {
            SinkStep::Issue
        } else {
            SinkStep::Finished
        }
    }

    /// What becomes of `item` when the consumer is given it. It is written
    /// only where the writer is held and a wait for readiness has succeeded
    /// since the last item.
    pub open spec fn start_send<T>(self, item: T) -> Send<T> {
        if self.writer.is_some() {
            if self.ready {
                Send::Write(item)
            } else {
                Send::Unready(item)
            }
        } else if self.failed {
            Send::Rejected
        } else {
            Send::Dropped
        }
    }

    /// The state after an item was given: an item that is written uses up
    /// the readiness that was waited for.
    pub open spec fn sent(self) -> Self {
        if self.writer.is_some() {
            IntoSinkView { ready: false, ..self }
        } else {
            self
        }
    }

    /// Whether nothing is pending with the host.
    pub open spec fn quiet(self) -> bool {
        self.ready_fut.is_none() && self.write_fut.is_none() && self.close_fut.is_none()
    }

    /// The state after the host has rejected an operation: the writer is
    /// dropped and the consumer has failed.
    pub open spec fn broken(self) -> Self {
        IntoSinkView { writer: None, ready: false, failed: true, ..self }
    }

    /// The state after the wait for readiness has settled: ready to accept
    /// one item after the host's signal, failed after its rejection.
    pub open spec fn ready_settled<E>(self, settled: Result<(), E>) -> Self {
        let cleared = IntoSinkView { ready_fut: None, ..self };
        match settled {
            Ok(_) => IntoSinkView { ready: cleared.writer.is_some(), ..cleared },
            Err(_) => cleared.broken(),
        }
    }

    /// The state after the pending write has settled.
    pub open spec fn write_settled<E>(self, settled: Result<(), E>) -> Self {
        let cleared = IntoSinkView { write_fut: None, ..self };
        match settled {
            Ok(_) => cleared,
            Err(_) => cleared.broken(),
        }
    }

    /// The state after the close has settled: the writer is gone either way.
    pub open spec fn close_settled<E>(self, settled: Result<(), E>) -> Self {
        let cleared = IntoSinkView { writer: None, close_fut: None, ready: false, ..self };
        match settled {
            Ok(_) => cleared,
            Err(_) => cleared.broken(),
        }
    }

    /// One send as a whole, from a state in which nothing is pending: the
    /// wait for readiness, which the host answers with `ready`; the item
    /// given; and the flush of its write, which the host answers with
    /// `written`. Gives the state after the send, the chunk that the host
    /// was asked to write, if any, and what the send returns.
    pub open spec fn send<T, E>(self, item: T, ready: Result<(), E>, written: Result<(), E>) -> (
        Self,
        Option<T>,
        Result<(), SinkError<E>>,
    ) {
        match self.ready_step().spec_at_once::<E>() {
            Some(result) => (self, None, result),
            None => match ready {
                Err(_) => (self.ready_settled(ready), None, settled_result(ready)),
                Ok(_) => match self.ready_settled(ready).start_send(item).spec_into_chunk::<E>() {
                    Ok(Some(chunk)) => (
                        self.ready_settled(ready).sent().write_settled(written),
                        Some(chunk),
                        settled_result(written),
                    ),
                    Ok(None) => (self.ready_settled(ready).sent(), None, Ok(())),
                    Err(error) => (self.ready_settled(ready).sent(), None, Err(error)),
                },
            },
        }
    }

    /// A run of sends, one for each entry of `items`: for each send the
    /// chunk that the host was asked to write, if any, and what the send
    /// returned. `readies` and `writtens` are the host's answers to the
    /// waits and the writes.
    pub open spec fn sends<T, E>(
        self,
        items: Seq<T>,
        readies: Seq<Result<(), E>>,
        writtens: Seq<Result<(), E>>,
    ) -> Seq<(Option<T>, Result<(), SinkError<E>>)>
        decreases items.len(),
    {
        if items.len() == 0 {
            Seq::empty()
        } else {
            let (next, chunk, sent) = self.send(items.first(), readies.first(), writtens.first());
            seq![(chunk, sent)] + next.sends(
                items.drop_first(),
                readies.drop_first(),
                writtens.drop_first(),
            )
        }
    }

    /// The state after a run of sends.
    pub open spec fn after_sends<T, E>(
        self,
        items: Seq<T>,
        readies: Seq<Result<(), E>>,
        writtens: Seq<Result<(), E>>,
    ) -> Self
        decreases items.len(),
    {
        if items.len() == 0 {
            self
        } else {
            self.send(items.first(), readies.first(), writtens.first()).0.after_sends(
                items.drop_first(),
                readies.drop_first(),
                writtens.drop_first(),
            )
        }
    }

    /// One close as a whole, from a state in which nothing is pending: the
    /// state after it, whether the host was asked to close the stream, and
    /// what the close returns for the host's answer `closed`.
    pub open spec fn close<E>(self, closed: Result<(), E>) -> (Self, bool, Result<(), SinkError<E>>) {
        match self.close_step().spec_at_once::<E>() {
            Some(result) => (self, false, result),
            None => (self.close_settled(closed), true, settled_result(closed)),
        }
    }
}

/// What a step returns for the host's answer: the host's error is handed on.
pub open spec fn settled_result<E>(settled: Result<(), E>) -> Result<(), SinkError<E>> {
    match settled {
        Ok(_) => Ok(()),
        Err(error) => Err(SinkError::Host(error)),
    }
}

impl<W, F> View for IntoSink<W, F> {
    type V = IntoSinkView<W, F>;

    closed spec fn view(&self) -> IntoSinkView<W, F> {
        IntoSinkView {
            writer: self.writer,
            ready_fut: self.ready_fut,
            write_fut: self.write_fut,
            close_fut: self.close_fut,
            ready: self.ready,
            failed: self.failed,
        }
    }
}

impl<W, F> IntoSink<W, F> {
    /// The consumer over `writer`, with nothing pending.
    pub fn new(writer: W) -> (sink: Self)
        ensures
            sink@ == IntoSinkView::<W, F>::fresh(writer),
    {
        IntoSink {
            writer: Some(writer),
            ready_fut: None,
            write_fut: None,
            close_fut: None,
            ready: false,
            failed: false,
        }
    }

    /// The writer on which host operations are issued.
    pub fn writer(&self) -> (writer: Option<&W>)
        ensures
            match writer {
                Some(held) => self@.writer == Some(*held),
                None => self@.writer.is_none(),
            },
    {
        self.writer.as_ref()
    }

    /// What a wait for readiness starts with. `Issue` asks for the host's
    /// readiness signal, by which its backpressure is observed.
    pub fn ready_step(&self) -> (step: SinkStep)
        ensures
            step == self@.ready_step(),
    {
        if self.ready_fut.is_some() {
            SinkStep::Resume
        } else if self.writer.is_some() {
            SinkStep::Issue
        } else if self.failed {
            SinkStep::Rejected
        } else {
            SinkStep::Finished
        }
    }

    /// Stores the wait for readiness that was just issued. No second wait is
    /// issued while one is pending.
    pub fn ready_issued(&mut self, fut: F)
        requires
            old(self)@.ready_step() == SinkStep::Issue,
        ensures
            final(self)@ == (IntoSinkView { ready_fut: Some(fut), ..old(self)@ }),
    {
        self.ready_fut = Some(fut);
    }

    /// The pending wait for readiness, to be polled.
    pub fn pending_ready(&mut self) -> (fut: Option<&mut F>)
        ensures
            match old(self)@.ready_fut {
                None => fut.is_none() && final(self)@ == old(self)@,
                Some(pending) => fut.is_some() && *fut.unwrap() == pending && final(self)@ == (
                IntoSinkView { ready_fut: Some(*final(fut.unwrap())), ..old(self)@ }),
            },
    {
        self.ready_fut.as_mut()
    }

    /// Takes the host's answer to the wait for readiness. After the host's
    /// signal the consumer accepts one item. A rejection drops the writer
    /// and fails the consumer for good.
    pub fn ready_settled<E>(&mut self, settled: Result<(), E>) -> (ready: Result<(), SinkError<E>>)
        ensures
            final(self)@ == old(self)@.ready_settled(settled),
            ready == settled_result(settled),
    {
        self.ready_fut = None;
        match settled {
            Ok(done) => {
                self.ready = self.writer.is_some();
                Ok(done)
            },
            Err(error) => {
                self.fail();
                Err(SinkError::Host(error))
            },
        }
    }

    /// Gives `item` to the consumer and says what becomes of it. An item is
    /// written only after a wait for readiness that has succeeded, and each
    /// such wait admits one item.
    pub fn start_send<T>(&mut self, item: T) -> (send: Send<T>)
        ensures
            send == old(self)@.start_send(item),
            final(self)@ == old(self)@.sent(),
    {
        if self.writer.is_some() {
            if self.ready {
                self.ready = false;
                Send::Write(item)
            } else {
                Send::Unready(item)
            }
        } else if self.failed {
            Send::Rejected
        } else {
            Send::Dropped
        }
    }

    /// Stores the write request that was just issued for an item, in place
    /// of the one before it: it is what the next flush waits for.
    pub fn write_issued(&mut self, fut: F)
        requires
            old(self)@.writer.is_some(),
        ensures
            final(self)@ == (IntoSinkView { write_fut: Some(fut), ..old(self)@ }),
    {
        self.write_fut = Some(fut);
    }

    /// What a flush starts with.
    pub fn flush_step(&self) -> (step: SinkStep)
        ensures
            step == self@.flush_step(),
    {
        if self.write_fut.is_some() {
            SinkStep::Resume
        } else {
            SinkStep::Finished
        }
    }

    /// The pending write request, to be polled.
    pub fn pending_write(&mut self) -> (fut: Option<&mut F>)
        ensures
            match old(self)@.write_fut {
                None => fut.is_none() && final(self)@ == old(self)@,
                Some(pending) => fut.is_some() && *fut.unwrap() == pending && final(self)@ == (
                IntoSinkView { write_fut: Some(*final(fut.unwrap())), ..old(self)@ }),
            },
    {
        self.write_fut.as_mut()
    }

    /// Takes the host's answer to the pending write. A rejection drops the
    /// writer and fails the consumer for good.
    pub fn write_settled<E>(&mut self, settled: Result<(), E>) -> (flushed: Result<(), SinkError<E>>)
        ensures
            final(self)@ == old(self)@.write_settled(settled),
            flushed == settled_result(settled),
    {
        self.write_fut = None;
        match settled {
            Ok(done) => Ok(done),
            Err(error) => {
                self.fail();
                Err(SinkError::Host(error))
            },
        }
    }

    /// What a close starts with. `Issue` asks the host to close the stream.
    pub fn close_step(&self) -> (step: SinkStep)
        ensures
            step == self@.close_step(),
    {
        if self.close_fut.is_some() {
            SinkStep::Resume
        } else if self.writer.is_some() {
            SinkStep::Issue
        } else {
            SinkStep::Finished
        }
    }

    /// Stores the close request that was just issued. No second close is
    /// issued while one is pending.
    pub fn close_issued(&mut self, fut: F)
        requires
            old(self)@.close_step() == SinkStep::Issue,
        ensures
            final(self)@ == (IntoSinkView { close_fut: Some(fut), ..old(self)@ }),
    {
        self.close_fut = Some(fut);
    }

    /// The pending close request, to be polled.
    pub fn pending_close(&mut self) -> (fut: Option<&mut F>)
        ensures
            match old(self)@.close_fut {
                None => fut.is_none() && final(self)@ == old(self)@,
                Some(pending) => fut.is_some() && *fut.unwrap() == pending && final(self)@ == (
                IntoSinkView { close_fut: Some(*final(fut.unwrap())), ..old(self)@ }),
            },
    {
        self.close_fut.as_mut()
    }

    /// Takes the host's answer to the close request. The writer is dropped
    /// whatever the answer; a rejection fails the consumer as well.
    pub fn close_settled<E>(&mut self, settled: Result<(), E>) -> (closed: Result<(), SinkError<E>>)
        ensures
            final(self)@ == old(self)@.close_settled(settled),
            closed == settled_result(settled),
    {
        self.close_fut = None;
        self.writer = None;
        self.ready = false;
        match settled {
            Ok(done) => Ok(done),
            Err(error) => {
                self.fail();
                Err(SinkError::Host(error))
            },
        }
    }

    /// Gives up the writer in order to abort the stream: the writer on which
    /// to abort, where one is still held.
    pub fn abort(&mut self) -> (writer: Option<W>)
        ensures
            writer == old(self)@.writer,
            final(self)@ == (IntoSinkView { writer: None, ready: false, ..old(self)@ }),
    {
        self.ready = false;
        self.writer.take()
    }

    fn fail(&mut self)
        ensures
            final(self)@ == old(self)@.broken(),
    {
        self.writer = None;
        self.ready = false;
        self.failed = true;
    }
}

/// Nothing is written without a wait that succeeded. An item is handed to
/// the host only in a state that a successful wait for readiness has left
/// ready, and handing it on uses the readiness up: the next item waits
/// again. A fresh consumer has waited for nothing yet.
pub proof fn lemma_write_needs_readiness<W, F, T>(
    state: IntoSinkView<W, F>,
    writer: W,
    item: T,
    next: T,
)
    ensures
        state.start_send(item) is Write ==> state.ready && state.writer.is_some(),
        !(state.sent().start_send(next) is Write),
        !(IntoSinkView::<W, F>::fresh(writer).start_send(item) is Write),
        state.writer.is_some() ==> state.ready_settled(Ok::<(), ()>(())).start_send(item)
            == Send::Write(item),
{
}

/// The end is final. A consumer without a writer, with nothing pending, asks
/// the host for nothing any more: after a close or an abort every send
/// drops its item and succeeds, after a failure every send fails, and a
/// close does nothing. The consumer stays as it is.
pub proof fn lemma_end_is_final<W, F, T, E>(
    state: IntoSinkView<W, F>,
    item: T,
    ready: Result<(), E>,
    written: Result<(), E>,
    closed: Result<(), E>,
)
    requires
        state.writer.is_none(),
        state.quiet(),
    ensures
        state.send(item, ready, written) == (
            state,
            None::<T>,
            if state.failed {
                Err::<(), SinkError<E>>(SinkError::Errored)
            } else {
                Ok::<(), SinkError<E>>(())
            },
        ),
        state.close(closed) == (state, false, Ok::<(), SinkError<E>>(())),
{
}

/// Whatever the host answers, a close or a rejection ends the consumer: the
/// writer is dropped after a close that has settled and after any rejection,
/// and a rejection leaves the consumer failed.
pub proof fn lemma_close_and_rejection_end<W, F, E>(
    state: IntoSinkView<W, F>,
    settled: Result<(), E>,
    error: E,
)
    ensures
        state.close_settled(settled).writer.is_none(),
        state.ready_settled(Err::<(), E>(error)).writer.is_none(),
        state.ready_settled(Err::<(), E>(error)).failed,
        state.write_settled(Err::<(), E>(error)).writer.is_none(),
        state.write_settled(Err::<(), E>(error)).failed,
        state.close_settled(Err::<(), E>(error)).failed,
{
}

} // verus!
