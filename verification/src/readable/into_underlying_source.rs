//! A native sequence offered to the host as the source of a stream.
use futures_util::future::AbortHandle;
use vstd::prelude::*;

verus! {

/// Declares the abort handle of `futures_util` as a value that is carried
/// and never looked into.
#[verifier::external_type_specification]
#[verifier::external_body]
pub struct ExAbortHandle(futures_util::future::AbortHandle);

/// Calls `AbortHandle::abort` of `futures_util`, which flags the future
/// paired with the handle as aborted and wakes it. The call returns nothing
/// and nothing is claimed of it.
#[verifier::external_body]
pub(crate) fn abort_pull(handle: &AbortHandle) {
    handle.abort()
}

/// What the host's controller is told after a pull.
#[derive(Debug)]
pub enum PullAction<T, E> {
    /// The sequence gave a chunk: enqueue it.
    Enqueue(T),
    /// The sequence has ended: close the stream.
    Close,
    /// The sequence failed: the pull is rejected with its error.
    Fail(E),
}

/// How the sequence's own logic ended when a pull invoked it: it returned,
/// handing the sequence back with the next item, the end or an error; or it
/// faulted, and the sequence is lost.
pub ghost enum Polled<S, T, E> {
    Returned(S, Result<Option<T>, E>),
    Faulted,
}

/// What the host sees of one pull.
pub ghost enum Pulled<T, E> {
    /// The pull ran the sequence and told the controller this.
    Acted(PullAction<T, E>),
    /// The sequence's logic faulted: the pull is rejected.
    Faulted,
    /// The source had finished before: the pull is rejected at once and the
    /// sequence's logic is not invoked.
    Finished,
}

/// The inner state of the source: the sequence, until it has ended, failed,
/// faulted or been given up.
#[derive(Debug)]
pub struct Inner<S> {
    stream: Option<S>,
}

/// The state of an [`Inner`]: the sequence that is held, if any.
pub ghost struct InnerView<S> {
    pub stream: Option<S>,
}

/// What the controller is told for what the sequence returned.
pub open spec fn pull_action<T, E>(item: Result<Option<T>, E>) -> PullAction<T, E> {
    match item {
        Ok(Some(chunk)) => PullAction::Enqueue(chunk),
        Ok(None) => PullAction::Close,
        Err(error) => PullAction::Fail(error),
    }
}

impl<S> InnerView<S> {
    /// The emptied state.
    pub open spec fn taken() -> Self {
        InnerView { stream: None }
    }

    /// The state after the sequence's logic has returned: the sequence is
    /// back after a chunk, and gone after the end or an error.
    pub open spec fn pull_finished<T, E>(stream: S, item: Result<Option<T>, E>) -> Self {
        match item {
            Ok(Some(_)) => InnerView { stream: Some(stream) },
            _ => Self::taken(),
        }
    }

    /// One pull as a whole: the state after it and what the host sees.
    /// `polled` says how the sequence's logic ends if the pull invokes it.
    pub open spec fn pull<T, E>(self, polled: Polled<S, T, E>) -> (Self, Pulled<T, E>) {
        match self.stream {
            None => (self, Pulled::Finished),
            Some(_) => match polled {
                Polled::Returned(stream, item) => (
                    Self::pull_finished(stream, item),
                    Pulled::Acted(pull_action(item)),
                ),
                Polled::Faulted => (Self::taken(), Pulled::Faulted),
            },
        }
    }

    /// What the host sees of a run of pulls, one for each entry of `polls`.
    pub open spec fn pulls<T, E>(self, polls: Seq<Polled<S, T, E>>) -> Seq<Pulled<T, E>>
        decreases polls.len(),
    {
        if polls.len() == 0 {
            Seq::empty()
        } else {
            let (next, pulled) = self.pull(polls.first());
            seq![pulled] + next.pulls(polls.drop_first())
        }
    }

    /// The state after a run of pulls.
    pub open spec fn after_pulls<T, E>(self, polls: Seq<Polled<S, T, E>>) -> Self
        decreases polls.len(),
    {
        if polls.len() == 0 {
            self
        } else {
            self.pull(polls.first()).0.after_pulls(polls.drop_first())
        }
    }
}

impl<S> View for Inner<S> {
    type V = InnerView<S>;

    closed spec fn view(&self) -> InnerView<S> {
        InnerView { stream: self.stream }
    }
}

impl<S> Inner<S> {
    /// The state that holds `stream`.
    pub fn new(stream: S) -> (inner: Self)
        ensures
            inner@ == (InnerView { stream: Some(stream) }),
    {
        Inner { stream: Some(stream) }
    }

    /// Begins a pull: takes the sequence out of the state, so that a fault in
    /// its logic leaves the state empty. Returns nothing once the sequence
    /// is gone: the source has finished and the pull is to be rejected
    /// without invoking anything.
    pub fn begin_pull(&mut self) -> (stream: Option<S>)
        ensures
            stream == old(self)@.stream,
            final(self)@ == InnerView::<S>::taken(),
    {
        self.stream.take()
    }

    /// Finishes the pull once the sequence's logic has returned `item`, and
    /// says what the controller is told. Only after a chunk does the
    /// sequence go back into the state.
    pub fn finish_pull<T, E>(&mut self, stream: S, item: Result<Option<T>, E>) -> (action:
        PullAction<T, E>)
        ensures
            final(self)@ == InnerView::<S>::pull_finished(stream, item),
            action == pull_action(item),
    {
        match item {
            Ok(Some(chunk)) => {
                self.stream = Some(stream);
                PullAction::Enqueue(chunk)
            },
            Ok(None) => {
                self.stream = None;
                PullAction::Close
            },
            Err(error) => {
                self.stream = None;
                PullAction::Fail(error)
            },
        }
    }

    /// Empties the state: the sequence is dropped.
    pub fn discard(&mut self)
        ensures
            final(self)@ == InnerView::<S>::taken(),
    {
        self.stream = None;
    }
}

/// The host-facing part of the source: the abort handle of the pull in
/// flight.
#[derive(Debug)]
pub struct IntoUnderlyingSource {
    pull_handle: Option<AbortHandle>,
}

impl IntoUnderlyingSource {
    /// The abort handle of the pull in flight, if there is one.
    pub closed spec fn pull_handle(&self) -> Option<AbortHandle> {
        self.pull_handle
    }

    /// The source with no pull in flight.
    pub fn new() -> (source: Self)
        ensures
            source.pull_handle().is_none(),
    {
        IntoUnderlyingSource { pull_handle: None }
    }

    /// Keeps the abort handle of the pull that was just started, in place of
    /// that of the pull before it.
    pub fn pull(&mut self, handle: AbortHandle)
        ensures
            final(self).pull_handle() == Some(handle),
    {
        self.pull_handle = Some(handle);
    }

    /// The stream has been cancelled: aborts the pull in flight, if there is
    /// one, and lets go of its handle. Returns whether a pull was aborted; a
    /// second call aborts nothing.
    pub fn cancel(&mut self) -> (aborted: bool)
        ensures
            aborted == old(self).pull_handle().is_some(),
            final(self).pull_handle().is_none(),
    {
        match self.pull_handle.take() {
            Some(handle) => {
                abort_pull(&handle);
                true
            },
            None => false,
        }
    }
}

/// A fault in the sequence's logic is contained. Take a source that holds a
/// sequence, and a run of pulls in which the first `n` invocations of the
/// logic each return a chunk and the next one faults. Then the host sees `n`
/// enqueued chunks in order, one rejection for the fault, and after it the
/// source is empty: every further pull is rejected as finished, whatever the
/// logic would have done, since it is not invoked again.
pub proof fn lemma_fault_contained<S, T, E>(
    start: InnerView<S>,
    polls: Seq<Polled<S, T, E>>,
    n: int,
)
    requires
        start.stream.is_some(),
        0 <= n < polls.len(),
        forall|i: int|
            0 <= i < n ==> (#[trigger] polls[i]) matches Polled::Returned(_, Ok(Some(_))),
        polls[n] is Faulted,
    ensures
        start.pulls(polls).len() == polls.len(),
        forall|i: int|
            0 <= i < n ==> (#[trigger] start.pulls(polls)[i]) == Pulled::<T, E>::Acted(
                pull_action(polls[i]->Returned_1),
            ),
        start.pulls(polls)[n] == Pulled::<T, E>::Faulted,
        forall|i: int|
            n < i < polls.len() ==> (#[trigger] start.pulls(polls)[i]) == Pulled::<T, E>::Finished,
        start.after_pulls(polls) == InnerView::<S>::taken(),
    decreases polls.len(),
{
    let (next, pulled) = start.pull(polls.first());
    let rest = polls.drop_first();
    if n == 0 {
        lemma_finished_stays(next, rest);
        assert forall|i: int| n < i < polls.len() implies (#[trigger] start.pulls(polls)[i])
            == Pulled::<T, E>::Finished by {
            assert(start.pulls(polls)[i] == next.pulls(rest)[i - 1]);
        }
    } else {
        assert forall|i: int| 0 <= i < n - 1 implies (#[trigger] rest[i]) matches Polled::Returned(
            _,
            Ok(Some(_)),
        ) by {
            assert(rest[i] == polls[i + 1]);
        }
        assert(rest[n - 1] == polls[n]);
        lemma_fault_contained(next, rest, n - 1);
        assert forall|i: int| 0 <= i < n implies (#[trigger] start.pulls(polls)[i]) == Pulled::<
            T,
            E,
        >::Acted(pull_action(polls[i]->Returned_1)) by {
            if i > 0 {
                assert(start.pulls(polls)[i] == next.pulls(rest)[i - 1]);
                assert(rest[i - 1] == polls[i]);
            }
        }
        assert(start.pulls(polls)[n] == next.pulls(rest)[n - 1]);
        assert forall|i: int| n < i < polls.len() implies (#[trigger] start.pulls(polls)[i])
            == Pulled::<T, E>::Finished by {
            assert(start.pulls(polls)[i] == next.pulls(rest)[i - 1]);
        }
    }
}

/// An empty source stays empty: every pull is rejected as finished.
pub proof fn lemma_finished_stays<S, T, E>(start: InnerView<S>, polls: Seq<Polled<S, T, E>>)
    requires
        start.stream.is_none(),
    ensures
        start.pulls(polls).len() == polls.len(),
        forall|i: int|
            0 <= i < polls.len() ==> (#[trigger] start.pulls(polls)[i]) == Pulled::<T, E>::Finished,
        start.after_pulls(polls) == start,
    decreases polls.len(),
{
    if polls.len() > 0 {
        let rest = polls.drop_first();
        lemma_finished_stays(start, rest);
        assert forall|i: int| 0 <= i < polls.len() implies (#[trigger] start.pulls(polls)[i])
            == Pulled::<T, E>::Finished by {
            if i > 0 {
                assert(start.pulls(polls)[i] == start.pulls(rest)[i - 1]);
            }
        }
    }
}

} // verus!
