//! Chunks on their way through a bridge, the host and an adapter: what
//! comes out is what went in, and a failure on one end is seen on the other.
//!
//! The host stands between a source and its reader, and between a writer
//! and its sink. All that is said of it here is how it answers: a read with
//! what one pull of the source told it, a write with what the sink made of
//! the chunk.
use crate::readable::default_reader::read_outcome;
use crate::readable::into_stream::settled_item;
use crate::readable::into_stream::IntoStreamView;
use crate::readable::into_underlying_source::InnerView;
use crate::readable::into_underlying_source::Polled;
use crate::readable::into_underlying_source::PullAction;
use crate::readable::into_underlying_source::Pulled;
use crate::readable::sys::ReadableStreamReadResult;
use crate::writable::into_sink::IntoSinkView;
use crate::writable::into_sink::SinkError;
use crate::writable::into_underlying_sink::Fed;
use crate::writable::into_underlying_sink::IntoUnderlyingSinkView;
use crate::writable::into_underlying_sink::Written;
use vstd::prelude::*;

verus! {

/// How a host that keeps no queue of its own answers a read request, given
/// what the pull that it made for the request told it: an enqueued chunk is
/// read, a close ends the stream, and a rejected pull fails the read, with
/// the source's error where it gave one.
pub open spec fn read_answer<T, E>(
    pulled: Pulled<T, E>,
    settled: Result<ReadableStreamReadResult<T>, E>,
) -> bool {
    match pulled {
        Pulled::Acted(PullAction::Enqueue(chunk)) => settled matches Ok(result) && !result.done
            && result.value == chunk,
        Pulled::Acted(PullAction::Close) => settled matches Ok(result) && result.done,
        Pulled::Acted(PullAction::Fail(error)) => settled == Err::<
            ReadableStreamReadResult<T>,
            E,
        >(error),
        _ => settled is Err,
    }
}

/// How the host answers a write request, given what the sink made of the
/// chunk: an accepted chunk resolves the write, and a rejected write fails
/// it, with the consumer's error where it gave one.
pub open spec fn write_answer<E>(written: Written<E>, settled: Result<(), E>) -> bool {
    match written {
        Written::Accepted => settled is Ok,
        Written::Failed(error) => settled == Err::<(), E>(error),
        _ => settled is Err,
    }
}

/// Whether the logic of a native sequence, invoked again and again, gives
/// `values` in order and then ends.
pub open spec fn gives<S, T, E>(polls: Seq<Polled<S, T, E>>, values: Seq<T>) -> bool {
    &&& polls.len() == values.len() + 1
    &&& forall|i: int|
        0 <= i < values.len() ==> ((#[trigger] polls[i]) matches Polled::Returned(
            _,
            Ok(Some(chunk)),
        ) && chunk == values[i])
    &&& polls[values.len() as int] matches Polled::Returned(_, Ok(None))
}

/// While a sequence keeps giving chunks, each pull acts on what the
/// sequence returned: as long as every earlier invocation returned a chunk,
/// pull `k` tells the host what invocation `k` returned.
pub proof fn lemma_pull_acts<S, T, E>(start: InnerView<S>, polls: Seq<Polled<S, T, E>>, k: int)
    requires
        start.stream.is_some(),
        0 <= k < polls.len(),
        forall|i: int|
            0 <= i < k ==> (#[trigger] polls[i]) matches Polled::Returned(_, Ok(Some(_))),
    ensures
        start.pulls(polls).len() == polls.len(),
        start.pulls(polls)[k] == start.pull(polls[k]).1,
    decreases polls.len(),
{
    let rest = polls.drop_first();
    let next = start.pull(polls.first()).0;
    lemma_pulls_len(next, rest);
    if k > 0 {
        assert forall|i: int| 0 <= i < k - 1 implies (#[trigger] rest[i]) matches Polled::Returned(
            _,
            Ok(Some(_)),
        ) by {
            assert(rest[i] == polls[i + 1]);
        }
        lemma_pull_acts(next, rest, k - 1);
        assert(rest[k - 1] == polls[k]);
        assert(start.pulls(polls)[k] == next.pulls(rest)[k - 1]);
    }
}

/// A run of pulls tells the host one thing for each pull.
pub proof fn lemma_pulls_len<S, T, E>(start: InnerView<S>, polls: Seq<Polled<S, T, E>>)
    ensures
        start.pulls(polls).len() == polls.len(),
    decreases polls.len(),
{
    if polls.len() > 0 {
        lemma_pulls_len(start.pull(polls.first()).0, polls.drop_first());
    }
}

/// While the stream goes on, each pull of the sequence over a reader yields
/// what the host answered: as long as every earlier answer was a chunk, pull
/// `k` yields the item of answer `k`, and the reader is held after it unless
/// that answer ended the stream or failed.
pub proof fn lemma_pull_yields<R, F, T, E>(
    start: IntoStreamView<R, F>,
    answers: Seq<Result<ReadableStreamReadResult<T>, E>>,
    k: int,
)
    requires
        start.reader.is_some(),
        start.fut.is_none(),
        0 <= k < answers.len(),
        forall|i: int|
            0 <= i < k ==> ((#[trigger] answers[i]) matches Ok(result) && !result.done),
    ensures
        start.pulls(answers).len() == answers.len(),
        start.pulls(answers)[k] == settled_item(answers[k]),
    decreases answers.len(),
{
    let rest = answers.drop_first();
    let next = start.pull(answers.first()).0;
    lemma_yields_len(next, rest);
    if k > 0 {
        assert(answers[0] matches Ok(result) && !result.done);
        assert forall|i: int| 0 <= i < k - 1 implies (#[trigger] rest[i]) matches Ok(result)
            && !result.done by {
            assert(rest[i] == answers[i + 1]);
        }
        lemma_pull_yields(next, rest, k - 1);
        assert(rest[k - 1] == answers[k]);
        assert(start.pulls(answers)[k] == next.pulls(rest)[k - 1]);
    }
}

/// A run of pulls yields one item, or the end, for each pull.
pub proof fn lemma_yields_len<R, F, T, E>(
    start: IntoStreamView<R, F>,
    answers: Seq<Result<ReadableStreamReadResult<T>, E>>,
)
    ensures
        start.pulls(answers).len() == answers.len(),
    decreases answers.len(),
{
    if answers.len() > 0 {
        lemma_yields_len(start.pull(answers.first()).0, answers.drop_first());
    }
}

/// Reading gives back what the sequence held. Wrap a native sequence that
/// gives `values` as a source, and let a host without a queue answer each
/// read with what one pull told it. Then a reader reads exactly `values`,
/// in order, and then the end of the stream; and so does the sequence over
/// a reader, pull by pull.
pub proof fn lemma_read_round_trip<S, R, F, T, E>(
    values: Seq<T>,
    source: InnerView<S>,
    polls: Seq<Polled<S, T, E>>,
    answers: Seq<Result<ReadableStreamReadResult<T>, E>>,
    reader: IntoStreamView<R, F>,
)
    requires
        source.stream.is_some(),
        gives(polls, values),
        answers.len() == polls.len(),
        forall|i: int|
            0 <= i < polls.len() ==> read_answer(source.pulls(polls)[i], #[trigger] answers[i]),
        reader.reader.is_some(),
        reader.fut.is_none(),
    ensures
        forall|i: int|
            0 <= i < values.len() ==> read_outcome(#[trigger] answers[i]) == Ok::<Option<T>, E>(
                Some(values[i]),
            ),
        read_outcome(answers[values.len() as int]) == Ok::<Option<T>, E>(None),
        reader.pulls(answers).len() == values.len() + 1,
        forall|i: int|
            0 <= i < values.len() ==> (#[trigger] reader.pulls(answers)[i]) == Some(
                Ok::<T, E>(values[i]),
            ),
        reader.pulls(answers)[values.len() as int].is_none(),
        source.after_pulls(polls) == InnerView::<S>::taken(),
        reader.after_pulls(answers).reader.is_none(),
        reader.after_pulls(answers).fut.is_none(),
{
    let n = values.len() as int;
    lemma_source_ends(source, polls);
    assert forall|i: int| 0 <= i <= n implies source.pulls(polls)[i] == source.pull(
        #[trigger] polls[i],
    ).1 by {
        lemma_pull_acts(source, polls, i);
    }
    assert forall|i: int| 0 <= i < n implies (#[trigger] answers[i]) matches Ok(result)
        && !result.done && result.value == values[i] by {
        assert(polls[i] matches Polled::Returned(_, Ok(Some(chunk))) && chunk == values[i]);
        assert(read_answer(source.pulls(polls)[i], answers[i]));
    }
    assert(answers[n] matches Ok(result) && result.done) by {
        assert(polls[n] matches Polled::Returned(_, Ok(None)));
        assert(read_answer(source.pulls(polls)[n], answers[n]));
    }
    lemma_yields_len(reader, answers);
    assert forall|i: int| 0 <= i <= n implies (#[trigger] reader.pulls(answers)[i])
        == settled_item(answers[i]) by {
        assert forall|j: int| 0 <= j < i implies (#[trigger] answers[j]) matches Ok(result)
            && !result.done by {}
        lemma_pull_yields(reader, answers, i);
    }
    lemma_sequence_ends(reader, answers);
}

/// A source whose sequence gives chunks and then ends is empty afterwards.
pub proof fn lemma_source_ends<S, T, E>(start: InnerView<S>, polls: Seq<Polled<S, T, E>>)
    requires
        start.stream.is_some(),
        polls.len() > 0,
        forall|i: int|
            0 <= i < polls.len() - 1 ==> (#[trigger] polls[i]) matches Polled::Returned(
                _,
                Ok(Some(_)),
            ),
        polls[polls.len() - 1] matches Polled::Returned(_, Ok(None)),
    ensures
        start.after_pulls(polls) == InnerView::<S>::taken(),
    decreases polls.len(),
{
    let rest = polls.drop_first();
    let next = start.pull(polls.first()).0;
    if polls.len() > 1 {
        assert forall|i: int| 0 <= i < rest.len() - 1 implies (#[trigger] rest[i])
            matches Polled::Returned(_, Ok(Some(_))) by {
            assert(rest[i] == polls[i + 1]);
        }
        assert(rest[rest.len() - 1] == polls[polls.len() - 1]);
        lemma_source_ends(next, rest);
    } else {
        assert(rest.len() == 0);
        assert(next.after_pulls(rest) == next);
    }
}

/// The sequence over a reader has given up its reader once the host has
/// answered with chunks and then with the end of the stream.
pub proof fn lemma_sequence_ends<R, F, T, E>(
    start: IntoStreamView<R, F>,
    answers: Seq<Result<ReadableStreamReadResult<T>, E>>,
)
    requires
        start.reader.is_some(),
        start.fut.is_none(),
        answers.len() > 0,
        forall|i: int|
            0 <= i < answers.len() - 1 ==> ((#[trigger] answers[i]) matches Ok(result)
                && !result.done),
        answers[answers.len() - 1] matches Ok(result) && result.done,
    ensures
        start.after_pulls(answers).reader.is_none(),
        start.after_pulls(answers).fut.is_none(),
    decreases answers.len(),
{
    let rest = answers.drop_first();
    let next = start.pull(answers.first()).0;
    if answers.len() > 1 {
        assert(answers[0] matches Ok(result) && !result.done);
        assert forall|i: int| 0 <= i < rest.len() - 1 implies ((#[trigger] rest[i]) matches Ok(
            result,
        ) && !result.done) by {
            assert(rest[i] == answers[i + 1]);
        }
        assert(rest[rest.len() - 1] == answers[answers.len() - 1]);
        lemma_sequence_ends(next, rest);
    } else {
        assert(rest.len() == 0);
        assert(next.after_pulls(rest) == next);
    }
}

/// Whether the host and the consumer take a run of `n` writes without
/// complaint: the host signals readiness for each, and the consumer's logic
/// accepts each chunk.
pub open spec fn accepts<Si, E>(readies: Seq<Result<(), E>>, feeds: Seq<Fed<Si, E>>, n: nat) -> bool {
    &&& readies.len() == n
    &&& feeds.len() == n
    &&& forall|i: int| 0 <= i < n ==> (#[trigger] readies[i]) is Ok
    &&& forall|i: int| 0 <= i < n ==> (#[trigger] feeds[i]) matches Fed::Returned(_, Ok(_))
}

/// Writing hands on what the writer was given. Feed `values` through the
/// consumer over a writer into a sink that wraps a native consumer, let the
/// host signal readiness and answer each write with what the sink made of
/// its chunk, and let the native consumer accept. Then every send succeeds
/// and asks the host to write exactly its item, the native consumer sees
/// exactly `values`, in order, and a close after that asks the host to
/// close the stream, finds the native consumer still held to hand it the
/// close, and leaves the consumer over the writer finished and not failed.
pub proof fn lemma_write_round_trip<W, F, Si, T, E>(
    values: Seq<T>,
    writer: IntoSinkView<W, F>,
    sink: IntoUnderlyingSinkView<Si>,
    readies: Seq<Result<(), E>>,
    feeds: Seq<Fed<Si, E>>,
    answers: Seq<Result<(), E>>,
    closed: Result<(), E>,
)
    requires
        writer.writer.is_some(),
        writer.quiet(),
        sink.sink.is_some(),
        accepts(readies, feeds, values.len()),
        answers.len() == values.len(),
        forall|i: int|
            0 <= i < values.len() ==> write_answer(sink.writes(feeds)[i], #[trigger] answers[i]),
        closed is Ok,
    ensures
        writer.sends(values, readies, answers).len() == values.len(),
        forall|i: int|
            0 <= i < values.len() ==> (#[trigger] writer.sends(values, readies, answers)[i]) == (
                Some(values[i]),
                Ok::<(), SinkError<E>>(()),
            ),
        sink.observed(values, feeds).len() == values.len(),
        forall|i: int|
            0 <= i < values.len() ==> (#[trigger] sink.observed(values, feeds)[i]) == Some(
                values[i],
            ),
        sink.after_writes(feeds).sink.is_some(),
        writer.after_sends(values, readies, answers).close(closed).1,
        writer.after_sends(values, readies, answers).close(closed).2 == Ok::<(), SinkError<E>>(()),
        writer.after_sends(values, readies, answers).close(closed).0.writer.is_none(),
        writer.after_sends(values, readies, answers).close(closed).0.failed == writer.failed,
    decreases values.len(),
{
    if values.len() > 0 {
        let (next_writer, chunk, sent) = writer.send(values.first(), readies.first(), answers.first());
        let (next_sink, written) = sink.write(feeds.first());
        let rest = values.drop_first();
        let rest_readies = readies.drop_first();
        let rest_feeds = feeds.drop_first();
        let rest_answers = answers.drop_first();
        assert(readies[0] is Ok);
        assert(feeds[0] matches Fed::Returned(_, Ok(_)));
        assert(write_answer(sink.writes(feeds)[0], answers[0]));
        assert(answers[0] is Ok);
        lemma_writes_len(next_sink, rest_feeds);
        assert forall|i: int| 0 <= i < rest.len() implies write_answer(
            next_sink.writes(rest_feeds)[i],
            #[trigger] rest_answers[i],
        ) by {
            assert(rest_answers[i] == answers[i + 1]);
            assert(sink.writes(feeds)[i + 1] == next_sink.writes(rest_feeds)[i]);
        }
        assert(accepts(rest_readies, rest_feeds, rest.len())) by {
            assert forall|i: int| 0 <= i < rest.len() implies (#[trigger] rest_readies[i]) is Ok by {
                assert(rest_readies[i] == readies[i + 1]);
            }
            assert forall|i: int| 0 <= i < rest.len() implies (#[trigger] rest_feeds[i])
                matches Fed::Returned(_, Ok(_)) by {
                assert(rest_feeds[i] == feeds[i + 1]);
            }
        }
        lemma_write_round_trip(
            rest,
            next_writer,
            next_sink,
            rest_readies,
            rest_feeds,
            rest_answers,
            closed,
        );
        assert forall|i: int| 0 <= i < values.len() implies (#[trigger] writer.sends(
            values,
            readies,
            answers,
        )[i]) == (Some(values[i]), Ok::<(), SinkError<E>>(())) by {
            if i > 0 {
                assert(writer.sends(values, readies, answers)[i] == next_writer.sends(
                    rest,
                    rest_readies,
                    rest_answers,
                )[i - 1]);
                assert(rest[i - 1] == values[i]);
            }
        }
        assert forall|i: int| 0 <= i < values.len() implies (#[trigger] sink.observed(
            values,
            feeds,
        )[i]) == Some(values[i]) by {
            if i > 0 {
                assert(sink.observed(values, feeds)[i] == next_sink.observed(rest, rest_feeds)[i
                    - 1]);
                assert(rest[i - 1] == values[i]);
            }
        }
    } else {
        assert(feeds.len() == 0);
        assert(sink.after_writes(feeds) == sink);
    }
}

/// A run of writes shows the host one outcome for each write.
pub proof fn lemma_writes_len<Si, E>(start: IntoUnderlyingSinkView<Si>, feeds: Seq<Fed<Si, E>>)
    ensures
        start.writes(feeds).len() == feeds.len(),
    decreases feeds.len(),
{
    if feeds.len() > 0 {
        lemma_writes_len(start.write(feeds.first()).0, feeds.drop_first());
    }
}

/// A consumer that fails is not taken for a healthy one. Let the native
/// consumer refuse the first chunk it is fed with `error`. Then the sink
/// rejects that write with `error` and holds no consumer any more; the host
/// fails the write, the first send returns that very error, and the
/// consumer over the writer has failed; and the next send, whatever the
/// host would answer, asks the host for nothing and fails as well.
pub proof fn lemma_failure_reaches_sender<W, F, Si, T, E>(
    writer: IntoSinkView<W, F>,
    sink: IntoUnderlyingSinkView<Si>,
    consumer: Si,
    error: E,
    first: T,
    answer: Result<(), E>,
    second: T,
    ready: Result<(), E>,
    written: Result<(), E>,
)
    requires
        writer.writer.is_some(),
        writer.quiet(),
        sink.sink.is_some(),
        write_answer(sink.write(Fed::Returned(consumer, Err::<(), E>(error))).1, answer),
    ensures
        sink.write(Fed::Returned(consumer, Err::<(), E>(error))) == (
            IntoUnderlyingSinkView::<Si>::taken(),
            Written::Failed(error),
        ),
        writer.send(first, Ok::<(), E>(()), answer).1 == Some(first),
        writer.send(first, Ok::<(), E>(()), answer).2 == Err::<(), SinkError<E>>(
            SinkError::Host(error),
        ),
        writer.send(first, Ok::<(), E>(()), answer).0.failed,
        writer.send(first, Ok::<(), E>(()), answer).0.writer.is_none(),
        writer.send(first, Ok::<(), E>(()), answer).0.send(second, ready, written) == (
            writer.send(first, Ok::<(), E>(()), answer).0,
            None::<T>,
            Err::<(), SinkError<E>>(SinkError::Errored),
        ),
{
}

} // verus!
