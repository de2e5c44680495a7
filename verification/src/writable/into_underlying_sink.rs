//! A native consumer offered to the host as the sink of a stream.
use vstd::prelude::*;

verus! {

/// How the consumer's own logic ended when a write invoked it: it returned,
/// handing the consumer back with success or an error; or it faulted, and
/// the consumer is lost.
pub ghost enum Fed<Si, E> {
    Returned(Si, Result<(), E>),
    Faulted,
}

/// What the host sees of one write.
pub ghost enum Written<E> {
    /// The consumer took the chunk.
    Accepted,
    /// The consumer refused the chunk: the write is rejected with its error.
    Failed(E),
    /// The consumer's logic faulted: the write is rejected.
    Faulted,
    /// The sink had finished before: the write is rejected at once and the
    /// consumer's logic is not invoked.
    Finished,
}

/// The sink that the host drives: the consumer, until it has been closed or
/// aborted, has failed or has faulted.
#[derive(Debug)]
pub struct IntoUnderlyingSink<Si> {
    sink: Option<Si>,
}

/// The state of an [`IntoUnderlyingSink`]: the consumer that is held, if
/// any.
pub ghost struct IntoUnderlyingSinkView<Si> {
    pub sink: Option<Si>,
}

/// What the host sees of a write whose logic returned `result`.
pub open spec fn write_outcome<E>(result: Result<(), E>) -> Written<E> {
    match result {
        Ok(_) => Written::Accepted,
        Err(error) => Written::Failed(error),
    }
}

impl<Si> IntoUnderlyingSinkView<Si> {
    /// The emptied state.
    pub open spec fn taken() -> Self {
        IntoUnderlyingSinkView { sink: None }
    }

    /// The consumer and the chunk that a write of `chunk` feeds to it: none
    /// once the consumer is gone.
    pub open spec fn fed<T>(self, chunk: T) -> Option<(Si, T)> {
        match self.sink {
            Some(sink) => Some((sink, chunk)),
            None => None,
        }
    }

    /// The state after the consumer's logic has returned from a write: the
    /// consumer is back after success, and gone after an error.
    pub open spec fn write_finished<E>(sink: Si, result: Result<(), E>) -> Self {
        match result {
            Ok(_) => IntoUnderlyingSinkView { sink: Some(sink) },
            Err(_) => Self::taken(),
        }
    }

    /// One write as a whole: the state after it and what the host sees.
    /// `fed` says how the consumer's logic ends if the write invokes it.
    pub open spec fn write<E>(self, fed: Fed<Si, E>) -> (Self, Written<E>) {
        match self.sink {
            None => (self, Written::Finished),
            Some(_) => match fed {
                Fed::Returned(sink, result) => (
                    Self::write_finished(sink, result),
                    write_outcome(result),
                ),
                Fed::Faulted => (Self::taken(), Written::Faulted),
            },
        }
    }

    /// What the host sees of a run of writes, one for each entry of `feeds`.
    pub open spec fn writes<E>(self, feeds: Seq<Fed<Si, E>>) -> Seq<Written<E>>
        decreases feeds.len(),
    {
        if feeds.len() == 0 {
            Seq::empty()
        } else {
            let (next, written) = self.write(feeds.first());
            seq![written] + next.writes(feeds.drop_first())
        }
    }

    /// The chunks that reach the consumer in a run of writes of `chunks`:
    /// for each write the chunk that its logic was invoked with, if it was
    /// invoked.
    pub open spec fn observed<T, E>(self, chunks: Seq<T>, feeds: Seq<Fed<Si, E>>) -> Seq<Option<T>>
        decreases chunks.len(),
    {
        if chunks.len() == 0 {
            Seq::empty()
        } else {
            let seen = match self.fed(chunks.first()) {
                Some((_, chunk)) => Some(chunk),
                None => None,
            };
            seq![seen] + self.write(feeds.first()).0.observed(
                chunks.drop_first(),
                feeds.drop_first(),
            )
        }
    }

    /// The state after a run of writes.
    pub open spec fn after_writes<E>(self, feeds: Seq<Fed<Si, E>>) -> Self
        decreases feeds.len(),
    {
        if feeds.len() == 0 {
            self
        } else {
            self.write(feeds.first()).0.after_writes(feeds.drop_first())
        }
    }
}

impl<Si> View for IntoUnderlyingSink<Si> {
    type V = IntoUnderlyingSinkView<Si>;

    closed spec fn view(&self) -> IntoUnderlyingSinkView<Si> {
        IntoUnderlyingSinkView { sink: self.sink }
    }
}

impl<Si> IntoUnderlyingSink<Si> {
    /// The sink that holds the consumer `sink`.
    pub fn new(sink: Si) -> (wrapped: Self)
        ensures
            wrapped@ == (IntoUnderlyingSinkView { sink: Some(sink) }),
    {
        IntoUnderlyingSink { sink: Some(sink) }
    }

    /// Begins the write of `chunk`: takes the consumer out of the state, so
    /// that a fault in its logic leaves the state empty, and hands it over
    /// with the chunk to feed it. Returns nothing once the consumer is gone:
    /// the sink has finished, the chunk is dropped and the write is to be
    /// rejected without invoking anything.
    pub fn begin_write<T>(&mut self, chunk: T) -> (feed: Option<(Si, T)>)
        ensures
            feed == old(self)@.fed(chunk),
            final(self)@ == IntoUnderlyingSinkView::<Si>::taken(),
    {
        match self.sink.take() {
            Some(sink) => Some((sink, chunk)),
            None => None,
        }
    }

    /// Finishes the write once the consumer's logic has returned `result`,
    /// which is handed on to the host. Only after success does the consumer
    /// go back into the state: no further write reaches a consumer that has
    /// failed.
    pub fn finish_write<E>(&mut self, sink: Si, result: Result<(), E>) -> (written: Result<(), E>)
        ensures
            final(self)@ == IntoUnderlyingSinkView::<Si>::write_finished(sink, result),
            written == result,
    {
        match result {
            Ok(done) => {
                self.sink = Some(sink);
                Ok(done)
            },
            Err(error) => {
                self.sink = None;
                Err(error)
            },
        }
    }

    /// Begins the close: takes the consumer out of the state for good. It is
    /// closed by the caller and dropped whatever its close returns. Returns
    /// nothing once the consumer is gone.
    pub fn close(&mut self) -> (sink: Option<Si>)
        ensures
            sink == old(self)@.sink,
            final(self)@ == IntoUnderlyingSinkView::<Si>::taken(),
    {
        self.sink.take()
    }

    /// The stream has been aborted: drops the consumer without closing it.
    pub fn abort(&mut self)
        ensures
            final(self)@ == IntoUnderlyingSinkView::<Si>::taken(),
    {
        self.sink = None;
    }
}

/// An empty sink stays empty: every write is rejected as finished.
pub proof fn lemma_finished_stays<Si, E>(
    start: IntoUnderlyingSinkView<Si>,
    feeds: Seq<Fed<Si, E>>,
)
    requires
        start.sink.is_none(),
    ensures
        start.writes(feeds).len() == feeds.len(),
        forall|i: int|
            0 <= i < feeds.len() ==> (#[trigger] start.writes(feeds)[i]) == Written::<E>::Finished,
        start.after_writes(feeds) == start,
    decreases feeds.len(),
{
    if feeds.len() > 0 {
        let rest = feeds.drop_first();
        lemma_finished_stays(start, rest);
        assert forall|i: int| 0 <= i < feeds.len() implies (#[trigger] start.writes(feeds)[i])
            == Written::<E>::Finished by {
            if i > 0 {
                assert(start.writes(feeds)[i] == start.writes(rest)[i - 1]);
            }
        }
    }
}

/// A fault or a failure of the consumer's logic is contained. Take a sink
/// that holds a consumer, and a run of writes in which the first `n`
/// invocations of the logic each accept their chunk and the next one faults
/// or returns an error. Then the host sees `n` accepted writes, one
/// rejection for the fault or with the error, and after it the sink is
/// empty: every further write is rejected as finished, since the logic is
/// not invoked again.
pub proof fn lemma_fault_contained<Si, E>(
    start: IntoUnderlyingSinkView<Si>,
    feeds: Seq<Fed<Si, E>>,
    n: int,
)
    requires
        start.sink.is_some(),
        0 <= n < feeds.len(),
        forall|i: int| 0 <= i < n ==> (#[trigger] feeds[i]) matches Fed::Returned(_, Ok(_)),
        !(feeds[n] matches Fed::Returned(_, Ok(_))),
    ensures
        start.writes(feeds).len() == feeds.len(),
        forall|i: int|
            0 <= i < n ==> (#[trigger] start.writes(feeds)[i]) == Written::<E>::Accepted,
        start.writes(feeds)[n] == (match feeds[n] {
            Fed::Returned(_, result) => write_outcome(result),
            Fed::Faulted => Written::<E>::Faulted,
        }),
        forall|i: int|
            n < i < feeds.len() ==> (#[trigger] start.writes(feeds)[i]) == Written::<E>::Finished,
        start.after_writes(feeds) == IntoUnderlyingSinkView::<Si>::taken(),
    decreases feeds.len(),
{
    let (next, written) = start.write(feeds.first());
    let rest = feeds.drop_first();
    if n == 0 {
        lemma_finished_stays(next, rest);
        assert forall|i: int| n < i < feeds.len() implies (#[trigger] start.writes(feeds)[i])
            == Written::<E>::Finished by {
            assert(start.writes(feeds)[i] == next.writes(rest)[i - 1]);
        }
    } else {
        assert forall|i: int| 0 <= i < n - 1 implies (#[trigger] rest[i]) matches Fed::Returned(
            _,
            Ok(_),
        ) by {
            assert(rest[i] == feeds[i + 1]);
        }
        assert(rest[n - 1] == feeds[n]);
        lemma_fault_contained(next, rest, n - 1);
        assert forall|i: int| 0 <= i < n implies (#[trigger] start.writes(feeds)[i]) == Written::<
            E,
        >::Accepted by {
            if i > 0 {
                assert(start.writes(feeds)[i] == next.writes(rest)[i - 1]);
            }
        }
        assert(start.writes(feeds)[n] == next.writes(rest)[n - 1]);
        assert forall|i: int| n < i < feeds.len() implies (#[trigger] start.writes(feeds)[i])
            == Written::<E>::Finished by {
            assert(start.writes(feeds)[i] == next.writes(rest)[i - 1]);
        }
    }
}

} // verus!
