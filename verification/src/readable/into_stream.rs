//! A default reader driven as a native pull-based sequence.
use super::sys::ReadableStreamReadResult;
use vstd::prelude::*;

verus! {

/// What a pull has to do before it can yield.
#[derive(Clone, Copy, Debug, PartialEq, Eq, Structural)]
pub enum ReadStep {
    /// No reader is held and nothing is pending: the sequence has ended and
    /// the host is not contacted again.
    Finished,
    /// No request is pending: issue one read request to the host.
    Issue,
    /// A request is pending: poll it.
    Resume,
}

/// The sequence over a default reader `R`, with at most one pending read
/// request `F`. When `cancel_on_drop` is set, abandoning the sequence
/// cancels the stream.
#[must_use]
#[derive(Debug)]
pub struct IntoStream<R, F> {
    reader: Option<R>,
    fut: Option<F>,
    cancel_on_drop: bool,
}

/// The state of an [`IntoStream`]: idle while the reader is held and
/// nothing is pending, waiting while a request is pending, closed once the
/// reader is gone.
pub ghost struct IntoStreamView<R, F> {
    pub reader: Option<R>,
    pub fut: Option<F>,
    pub cancel_on_drop: bool,
}

impl<R, F> IntoStreamView<R, F> {
    /// The step that a pull starts with in this state.
    pub open spec fn next_step(self) -> ReadStep {
        if self.fut.is_some() {
            ReadStep::Resume
        } else if self.reader.is_some() {
            ReadStep::Issue
        } else {
            ReadStep::Finished
        }
    }

    /// The state once the pending request has been stored.
    pub open spec fn request_issued(self, fut: F) -> Self {
        IntoStreamView { fut: Some(fut), ..self }
    }

    /// The state after the host has settled the pending request: the slot is
    /// empty again, and the reader is gone once the stream is done or has
    /// failed.
    pub open spec fn request_settled<T, E>(
        self,
        settled: Result<ReadableStreamReadResult<T>, E>,
    ) -> Self {
        match settled {
            Ok(result) => if result.done {
                IntoStreamView { reader: None, fut: None, ..self }
            } else {
                IntoStreamView { fut: None, ..self }
            },
            Err(_) => IntoStreamView { reader: None, fut: None, ..self },
        }
    }

    /// One pull as a whole, from a state in which nothing is pending: the
    /// state after it and the item it yields. `settled` is the host's answer
    /// to the read request, if the pull issues one.
    pub open spec fn pull<T, E>(self, settled: Result<ReadableStreamReadResult<T>, E>) -> (
        Self,
        Option<Result<T, E>>,
    ) {
        match self.next_step() {
            ReadStep::Finished => (self, None),
            _ => (self.request_settled(settled), settled_item(settled)),
        }
    }

    /// The items of a run of pulls, one for each entry of `answers`, the
    /// host's answers to the read requests that the pulls issue.
    pub open spec fn pulls<T, E>(self, answers: Seq<Result<ReadableStreamReadResult<T>, E>>) -> Seq<
        Option<Result<T, E>>,
    >
        decreases answers.len(),
    {
        if answers.len() == 0 {
            Seq::empty()
        } else {
            let (next, item) = self.pull(answers.first());
            seq![item] + next.pulls(answers.drop_first())
        }
    }

    /// The state after a run of pulls.
    pub open spec fn after_pulls<T, E>(
        self,
        answers: Seq<Result<ReadableStreamReadResult<T>, E>>,
    ) -> Self
        decreases answers.len(),
    {
        if answers.len() == 0 {
            self
        } else {
            self.pull(answers.first()).0.after_pulls(answers.drop_first())
        }
    }

    /// The reader that abandoning the sequence in this state cancels.
    pub open spec fn cancelled_on_drop(self) -> Option<R> {
        if self.cancel_on_drop {
            self.reader
        } else {
            None
        }
    }
}

/// The item that a settled read request yields: the chunk, the host's error,
/// or the end of the sequence.
pub open spec fn settled_item<T, E>(settled: Result<ReadableStreamReadResult<T>, E>) -> Option<
    Result<T, E>,
> {
    match settled {
        Ok(result) => if result.done {
            None
        } else {
            Some(Ok(result.value))
        },
        Err(error) => Some(Err(error)),
    }
}

impl<R, F> View for IntoStream<R, F> {
    type V = IntoStreamView<R, F>;

    closed spec fn view(&self) -> IntoStreamView<R, F> {
        IntoStreamView { reader: self.reader, fut: self.fut, cancel_on_drop: self.cancel_on_drop }
    }
}

impl<R, F> IntoStream<R, F> {
    /// The idle sequence over `reader`.
    pub fn new(reader: R, cancel_on_drop: bool) -> (stream: Self)
        ensures
            stream@ == (IntoStreamView { reader: Some(reader), fut: None::<F>, cancel_on_drop }),
    {
        IntoStream { reader: Some(reader), fut: None, cancel_on_drop }
    }

    /// Whether the sequence has ended for good.
    pub fn is_terminated(&self) -> (terminated: bool)
        ensures
            terminated == (self@.reader.is_none() && self@.fut.is_none()),
    {
        self.reader.is_none() && self.fut.is_none()
    }

    /// What the next pull starts with.
    pub fn next_step(&self) -> (step: ReadStep)
        ensures
            step == self@.next_step(),
    {
        if self.fut.is_some() {
            ReadStep::Resume
        } else if self.reader.is_some() {
            ReadStep::Issue
        } else {
            ReadStep::Finished
        }
    }

    /// The reader on which a read request is issued.
    pub fn reader(&self) -> (reader: Option<&R>)
        ensures
            match reader {
                Some(held) => self@.reader == Some(*held),
                None => self@.reader.is_none(),
            },
    {
        self.reader.as_ref()
    }

    /// Stores the read request that was just issued to the host. A request
    /// is issued on the held reader, and none while another is pending.
    pub fn request_issued(&mut self, fut: F)
        requires
            old(self)@.next_step() == ReadStep::Issue,
        ensures
            final(self)@ == old(self)@.request_issued(fut),
    {
        self.fut = Some(fut);
    }

    /// The pending read request, to be polled.
    pub fn pending(&mut self) -> (fut: Option<&mut F>)
        ensures
            match old(self)@.fut {
                None => fut.is_none() && final(self)@ == old(self)@,
                Some(pending) => fut.is_some() && *fut.unwrap() == pending && final(self)@ == (
                IntoStreamView { fut: Some(*final(fut.unwrap())), ..old(self)@ }),
            },
    {
        self.fut.as_mut()
    }

    /// Takes the host's answer to the pending request and yields the next
    /// item. After the end of the stream or a failure the reader is dropped,
    /// so every later pull finishes at once.
    pub fn request_settled<T, E>(&mut self, settled: Result<ReadableStreamReadResult<T>, E>) -> (item:
        Option<Result<T, E>>)
        ensures
            final(self)@ == old(self)@.request_settled(settled),
            item == settled_item(settled),
    {
        self.fut = None;
        match settled {
            Ok(result) => {
                if result.done {
                    self.reader = None;
                    None
                } else {
                    Some(Ok(result.value))
                }
            },
            Err(error) => {
                self.reader = None;
                Some(Err(error))
            },
        }
    }

    /// Gives up the reader in order to cancel the stream: the reader on
    /// which to cancel, where one is still held. The sequence holds none
    /// afterwards.
    pub fn cancel(&mut self) -> (reader: Option<R>)
        ensures
            reader == old(self)@.reader,
            final(self)@ == (IntoStreamView { reader: None, ..old(self)@ }),
    {
        self.reader.take()
    }

    /// Takes the reader on which to cancel when the sequence is abandoned:
    /// the held reader where `cancel_on_drop` is set, none otherwise.
    pub fn take_cancelled_on_drop(&mut self) -> (reader: Option<R>)
        ensures
            reader == old(self)@.cancelled_on_drop(),
            final(self)@ == (if old(self)@.cancel_on_drop {
                IntoStreamView { reader: None, ..old(self)@ }
            } else {
                old(self)@
            }),
    {
        if self.cancel_on_drop {
            self.reader.take()
        } else {
            None
        }
    }
}

/// The end is final. Once the host has answered a read with the end of the
/// stream or with a failure, the sequence holds no reader and nothing is
/// pending: every later pull yields the end at once, whatever the host
/// would answer, since it is not asked again.
pub proof fn lemma_end_is_final<R, F, T, E>(
    state: IntoStreamView<R, F>,
    settled: Result<ReadableStreamReadResult<T>, E>,
    answers: Seq<Result<ReadableStreamReadResult<T>, E>>,
)
    requires
        settled matches Ok(result) ==> result.done,
    ensures
        state.request_settled(settled).next_step() == ReadStep::Finished,
        state.request_settled(settled).pulls(answers).len() == answers.len(),
        forall|i: int|
            0 <= i < answers.len() ==> (#[trigger] state.request_settled(settled).pulls(
                answers,
            )[i]).is_none(),
        state.request_settled(settled).after_pulls(answers) == state.request_settled(settled),
{
    lemma_ended_stays_ended(state.request_settled(settled), answers);
}

/// A sequence without a reader and without a pending request yields the
/// end for every pull and stays as it is.
pub proof fn lemma_ended_stays_ended<R, F, T, E>(
    state: IntoStreamView<R, F>,
    answers: Seq<Result<ReadableStreamReadResult<T>, E>>,
)
    requires
        state.next_step() == ReadStep::Finished,
    ensures
        state.pulls(answers).len() == answers.len(),
        forall|i: int| 0 <= i < answers.len() ==> (#[trigger] state.pulls(answers)[i]).is_none(),
        state.after_pulls(answers) == state,
    decreases answers.len(),
{
    if answers.len() > 0 {
        let rest = answers.drop_first();
        lemma_ended_stays_ended(state, rest);
        assert forall|i: int| 0 <= i < answers.len() implies (#[trigger] state.pulls(
            answers,
        )[i]).is_none() by {
            if i > 0 {
                assert(state.pulls(answers)[i] == state.pulls(rest)[i - 1]);
            }
        }
    }
}

} // verus!
