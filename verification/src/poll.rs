//! The decisions taken when a fused value is polled.
//!
//! Polling a fused value is split in two. The caller projects the slot
//! (`Project::project`); if a value is there, it polls that value with the
//! poll function and hands back what it got. The functions of this module
//! then decide what the poll returns and whether the slot is emptied.
//!
//! The event handed back is an `Option<Poll<O>>`: `None` when the slot was
//! empty (nothing was polled), `Some(result)` with the result of polling the
//! value otherwise.
use vstd::prelude::*;

verus! {

/// The outcome of a poll: a value is ready, or it is not yet.
#[derive(Debug, PartialEq, Eq)]
pub enum Poll<T> {
    /// The value is ready.
    Ready(T),
    /// The value is not ready yet.
    Pending,
}

impl<T> Poll<T> {
    /// Test if the poll outcome is `Ready`.
    pub fn is_ready(&self) -> (b: bool)
        ensures
            b <==> self is Ready,
    {
        match self {
            Poll::Ready(_) => true,
            Poll::Pending => false,
        }
    }

    /// Test if the poll outcome is `Pending`.
    pub fn is_pending(&self) -> (b: bool)
        ensures
            b <==> self is Pending,
    {
        match self {
            Poll::Ready(_) => false,
            Poll::Pending => true,
        }
    }
}

/// A slot that may hold a value to be polled.
pub trait Project {
    /// The type of the value held in the slot.
    type Value;

    /// What the slot holds.
    spec fn slot(&self) -> Option<Self::Value>;

    /// Clear the projected to value.
    fn clear(&mut self)
        ensures
            final(self).slot() is None,
    ;

    /// Project the value: a mutable reference to it, if there is one.
    fn project(&mut self) -> (r: Option<&mut Self::Value>)
        ensures
            r is Some <==> old(self).slot() is Some,
            r is Some ==> *r.unwrap() == old(self).slot().unwrap() && final(self).slot() == Some(
                *final(r.unwrap()),
            ),
            r is None ==> final(self).slot() == old(self).slot(),
    ;
}

/// What a poll that completes on `Ready` leaves in the slot and returns,
/// given what polling the value gave (`None` if nothing was polled). An empty
/// slot has nothing to poll: it answers `Pending` and stays empty, whatever
/// is handed back.
pub open spec fn future_step<V, O>(slot: Option<V>, polled: Option<Poll<O>>) -> (Option<V>, Poll<O>) {
    match (slot, polled) {
        (Some(_), Some(Poll::Ready(o))) => (None, Poll::Ready(o)),
        _ => (slot, Poll::Pending),
    }
}

/// What a poll that never empties the slot leaves and returns. An empty slot
/// answers `Pending`.
pub open spec fn inner_step<V, O>(slot: Option<V>, polled: Option<Poll<O>>) -> (Option<V>, Poll<O>) {
    match (slot, polled) {
        (Some(_), Some(Poll::Ready(o))) => (slot, Poll::Ready(o)),
        _ => (slot, Poll::Pending),
    }
}

/// What a poll of a stream leaves and returns: the slot is emptied when the
/// stream reports its end (`Ready(None)`). An empty slot answers `Pending`.
pub open spec fn stream_step<V, O>(slot: Option<V>, polled: Option<Poll<Option<O>>>) -> (
    Option<V>,
    Poll<Option<O>>,
) {
    match (slot, polled) {
        (Some(_), Some(Poll::Ready(None))) => (None, Poll::Ready(None)),
        (Some(_), Some(Poll::Ready(Some(o)))) => (slot, Poll::Ready(Some(o))),
        _ => (slot, Poll::Pending),
    }
}

/// What the caller of a step hands back, when polling a value would answer
/// `answer`: the answer if there is a value to poll, `None` otherwise.
pub open spec fn observed<V, O>(slot: Option<V>, answer: Poll<O>) -> Option<Poll<O>> {
    if slot is Some {
        Some(answer)
    } else {
        None
    }
}

/// The outputs of successive polls of a fused future whose value, when
/// polled, answers `answers[0]`, `answers[1]`, ... in turn.
pub open spec fn future_outputs<V, O>(slot: Option<V>, answers: Seq<Poll<O>>) -> Seq<Poll<O>>
    decreases answers.len(),
{
    if answers.len() == 0 {
        Seq::empty()
    } else {
        let (next, out) = future_step(slot, observed(slot, answers[0]));
        seq![out] + future_outputs(next, answers.drop_first())
    }
}

/// The outputs of successive polls that never empty the slot.
pub open spec fn inner_outputs<V, O>(slot: Option<V>, answers: Seq<Poll<O>>) -> Seq<Poll<O>>
    decreases answers.len(),
{
    if answers.len() == 0 {
        Seq::empty()
    } else {
        let (next, out) = inner_step(slot, observed(slot, answers[0]));
        seq![out] + inner_outputs(next, answers.drop_first())
    }
}

/// The outputs of successive polls of a fused stream.
pub open spec fn stream_outputs<V, O>(slot: Option<V>, answers: Seq<Poll<Option<O>>>) -> Seq<
    Poll<Option<O>>,
>
    decreases answers.len(),
{
    if answers.len() == 0 {
        Seq::empty()
    } else {
        let (next, out) = stream_step(slot, observed(slot, answers[0]));
        seq![out] + stream_outputs(next, answers.drop_first())
    }
}

/// Future abstraction created by `poll_future`: the adapter is emptied once
/// the value is ready.
///
/// It borrows the adapter it polls (`stack`) for as long as it lives; what
/// its methods do to the adapter is stated through that borrow, so the
/// adapter's state is known again once the poll future is dropped.
pub struct PollFuture<'a, S, P> {
    /// The adapter being polled.
    pub stack: &'a mut S,
    /// The poll function.
    pub poll: P,
}

impl<'a, S: Project, P> PollFuture<'a, S, P> {
    /// Construct the poll future over an adapter and a poll function.
    pub fn new(stack: &'a mut S, poll: P) -> (r: Self)
        ensures
            *r.stack == *old(stack),
            *final(r.stack) == *final(stack),
            r.poll == poll,
    {
        PollFuture { stack, poll }
    }

    /// Access the adapter and the poll function together.
    pub fn project(&mut self) -> (r: (&mut S, &mut P))
        ensures
            *r.0 == *old(self).stack,
            *r.1 == old(self).poll,
            *final(self).stack == *final(r.0),
            final(self).poll == *final(r.1),
            *final(final(self).stack) == *final(old(self).stack),
    {
        (&mut *self.stack, &mut self.poll)
    }

    /// Decide the outcome of a poll, given what polling the value gave
    /// (`None` if the adapter was empty); an empty adapter answers `Pending`
    /// whatever is handed back: the adapter is emptied once the value is
    /// ready.
    pub fn advance<O>(&mut self, polled: Option<Poll<O>>) -> (r: Poll<O>)
        ensures
            (final(self).stack.slot(), r) == future_step(old(self).stack.slot(), polled),
            *final(final(self).stack) == *final(old(self).stack),
            final(self).poll == old(self).poll,
    {
        if self.stack.project().is_none() {
            return Poll::Pending;
        }
        match polled {
            Some(Poll::Ready(output)) => {
                self.stack.clear();
                Poll::Ready(output)
            },
            _ => Poll::Pending,
        }
    }
}

/// Future abstraction created by `poll_inner`: the adapter is never emptied.
///
/// It borrows the adapter it polls (`stack`) for as long as it lives; what
/// its methods do to the adapter is stated through that borrow, so the
/// adapter's state is known again once the poll future is dropped.
pub struct PollInner<'a, S, P> {
    /// The adapter being polled.
    pub stack: &'a mut S,
    /// The poll function.
    pub poll: P,
}

impl<'a, S: Project, P> PollInner<'a, S, P> {
    /// Construct the poll future over an adapter and a poll function.
    pub fn new(stack: &'a mut S, poll: P) -> (r: Self)
        ensures
            *r.stack == *old(stack),
            *final(r.stack) == *final(stack),
            r.poll == poll,
    {
        PollInner { stack, poll }
    }

    /// Access the adapter and the poll function together.
    pub fn project(&mut self) -> (r: (&mut S, &mut P))
        ensures
            *r.0 == *old(self).stack,
            *r.1 == old(self).poll,
            *final(self).stack == *final(r.0),
            final(self).poll == *final(r.1),
            *final(final(self).stack) == *final(old(self).stack),
    {
        (&mut *self.stack, &mut self.poll)
    }

    /// Decide the outcome of a poll, given what polling the value gave
    /// (`None` if the adapter was empty); an empty adapter answers `Pending`
    /// whatever is handed back: the adapter is never emptied.
    pub fn advance<O>(&mut self, polled: Option<Poll<O>>) -> (r: Poll<O>)
        ensures
            (final(self).stack.slot(), r) == inner_step(old(self).stack.slot(), polled),
            *final(final(self).stack) == *final(old(self).stack),
            final(self).poll == old(self).poll,
    {
        if self.stack.project().is_none() {
            return Poll::Pending;
        }
        match polled {
            Some(Poll::Ready(output)) => Poll::Ready(output),
            _ => Poll::Pending,
        }
    }
}

/// Future abstraction created by `poll_stream`: the adapter is emptied once the stream ends.
///
/// It borrows the adapter it polls (`stack`) for as long as it lives; what
/// its methods do to the adapter is stated through that borrow, so the
/// adapter's state is known again once the poll future is dropped.
pub struct PollStream<'a, S, P> {
    /// The adapter being polled.
    pub stack: &'a mut S,
    /// The poll function.
    pub poll: P,
}

impl<'a, S: Project, P> PollStream<'a, S, P> {
    /// Construct the poll future over an adapter and a poll function.
    pub fn new(stack: &'a mut S, poll: P) -> (r: Self)
        ensures
            *r.stack == *old(stack),
            *final(r.stack) == *final(stack),
            r.poll == poll,
    {
        PollStream { stack, poll }
    }

    /// Access the adapter and the poll function together.
    pub fn project(&mut self) -> (r: (&mut S, &mut P))
        ensures
            *r.0 == *old(self).stack,
            *r.1 == old(self).poll,
            *final(self).stack == *final(r.0),
            final(self).poll == *final(r.1),
            *final(final(self).stack) == *final(old(self).stack),
    {
        (&mut *self.stack, &mut self.poll)
    }

    /// Decide the outcome of a poll, given what polling the value gave
    /// (`None` if the adapter was empty); an empty adapter answers `Pending`
    /// whatever is handed back: the adapter is emptied once the stream ends.
    pub fn advance<O>(&mut self, polled: Option<Poll<Option<O>>>) -> (r: Poll<Option<O>>)
        ensures
            (final(self).stack.slot(), r) == stream_step(old(self).stack.slot(), polled),
            *final(final(self).stack) == *final(old(self).stack),
            final(self).poll == old(self).poll,
    {
        if self.stack.project().is_none() {
            return Poll::Pending;
        }
        match polled {
            Some(Poll::Ready(output)) => {
                if output.is_none() {
                    self.stack.clear();
                }
                Poll::Ready(output)
            },
            _ => Poll::Pending,
        }
    }
}

/// One output per poll.
proof fn lemma_future_outputs_len<V, O>(slot: Option<V>, answers: Seq<Poll<O>>)
    ensures
        future_outputs(slot, answers).len() == answers.len(),
    decreases answers.len(),
{
    if answers.len() > 0 {
        let (next, _out) = future_step(slot, observed(slot, answers[0]));
        lemma_future_outputs_len(next, answers.drop_first());
    }
}

/// One output per poll.
proof fn lemma_stream_outputs_len<V, O>(slot: Option<V>, answers: Seq<Poll<Option<O>>>)
    ensures
        stream_outputs(slot, answers).len() == answers.len(),
    decreases answers.len(),
{
    if answers.len() > 0 {
        let (next, _out) = stream_step(slot, observed(slot, answers[0]));
        lemma_stream_outputs_len(next, answers.drop_first());
    }
}

/// An empty slot answers every poll with `Pending` and stays empty.
pub proof fn lemma_empty_future_pending<V, O>(answers: Seq<Poll<O>>)
    ensures
        forall|j: int| 0 <= j < answers.len() ==> (#[trigger] future_outputs(None::<V>, answers)[j]) is Pending,
        future_outputs(None::<V>, answers).len() == answers.len(),
    decreases answers.len(),
{
    if answers.len() > 0 {
        lemma_empty_future_pending::<V, O>(answers.drop_first());
    }
}

/// A fused future completes at most once: after a poll returned `Ready`,
/// every later poll returns `Pending`, whatever the value would answer.
pub proof fn lemma_future_fused<V, O>(slot: Option<V>, answers: Seq<Poll<O>>, i: int, j: int)
    requires
        0 <= i < j < answers.len(),
        future_outputs(slot, answers)[i] is Ready,
    ensures
        future_outputs(slot, answers)[j] is Pending,
    decreases i,
{
    let (next, out) = future_step(slot, observed(slot, answers[0]));
    let rest = answers.drop_first();
    lemma_future_outputs_len(next, rest);
    assert(future_outputs(slot, answers) == seq![out] + future_outputs(next, rest));
    if i == 0 {
        assert(next is None);
        lemma_empty_future_pending::<V, O>(rest);
        assert(future_outputs(slot, answers)[j] == future_outputs(next, rest)[j - 1]);
    } else {
        assert(future_outputs(slot, answers)[i] == future_outputs(next, rest)[i - 1]);
        lemma_future_fused(next, rest, i - 1, j - 1);
        assert(future_outputs(slot, answers)[j] == future_outputs(next, rest)[j - 1]);
    }
}

/// Polling that never empties the slot answers exactly what the value
/// answers, poll after poll, as long as a value is set.
pub proof fn lemma_inner_repeats<V, O>(value: V, answers: Seq<Poll<O>>)
    ensures
        inner_outputs(Some(value), answers) == answers,
    decreases answers.len(),
{
    if answers.len() > 0 {
        lemma_inner_repeats(value, answers.drop_first());
        let a = answers[0];
        assert(inner_step(Some(value), Some(a)).1 == a);
        assert(answers == seq![a] + answers.drop_first());
    }
}

/// An empty slot answers every stream poll with `Pending`.
pub proof fn lemma_empty_stream_pending<V, O>(answers: Seq<Poll<Option<O>>>)
    ensures
        forall|j: int| 0 <= j < answers.len() ==> (#[trigger] stream_outputs(None::<V>, answers)[j]) is Pending,
        stream_outputs(None::<V>, answers).len() == answers.len(),
    decreases answers.len(),
{
    if answers.len() > 0 {
        lemma_empty_stream_pending::<V, O>(answers.drop_first());
    }
}

/// A fused stream ends once: after a poll returned `Ready(None)`, every later
/// poll returns `Pending`, whatever the stream would answer.
pub proof fn lemma_stream_fused<V, O>(
    slot: Option<V>,
    answers: Seq<Poll<Option<O>>>,
    i: int,
    j: int,
)
    requires
        0 <= i < j < answers.len(),
        stream_outputs(slot, answers)[i] == Poll::<Option<O>>::Ready(None),
    ensures
        stream_outputs(slot, answers)[j] is Pending,
    decreases i,
{
    let (next, out) = stream_step(slot, observed(slot, answers[0]));
    let rest = answers.drop_first();
    lemma_stream_outputs_len(next, rest);
    assert(stream_outputs(slot, answers) == seq![out] + stream_outputs(next, rest));
    if i == 0 {
        assert(next is None);
        lemma_empty_stream_pending::<V, O>(rest);
        assert(stream_outputs(slot, answers)[j] == stream_outputs(next, rest)[j - 1]);
    } else {
        assert(stream_outputs(slot, answers)[i] == stream_outputs(next, rest)[i - 1]);
        lemma_stream_fused(next, rest, i - 1, j - 1);
        assert(stream_outputs(slot, answers)[j] == stream_outputs(next, rest)[j - 1]);
    }
}

/// A poll of a fused future, step by step: when the adapter holds a value
/// that answers `Ready(o)`, the poll answers exactly `Ready(o)` and the
/// adapter is emptied; when the value answers `Pending`, the poll answers
/// `Pending` and the adapter keeps the value; an empty adapter answers
/// `Pending` and stays empty, whatever is handed back.
pub proof fn law_future_step<V, O>(v: V, o: O, polled: Option<Poll<O>>)
    ensures
        future_step(Some(v), Some(Poll::Ready(o))) == (None::<V>, Poll::Ready(o)),
        future_step(Some(v), Some(Poll::<O>::Pending)) == (Some(v), Poll::<O>::Pending),
        future_step(None::<V>, polled) == (None::<V>, Poll::<O>::Pending),
{
}

/// A poll that never empties the adapter, step by step: the value's answer
/// (`Ready(o)` or `Pending`) is passed through and the value is kept; an
/// empty adapter answers `Pending` and stays empty.
pub proof fn law_inner_step<V, O>(v: V, o: O, polled: Option<Poll<O>>)
    ensures
        inner_step(Some(v), Some(Poll::Ready(o))) == (Some(v), Poll::Ready(o)),
        inner_step(Some(v), Some(Poll::<O>::Pending)) == (Some(v), Poll::<O>::Pending),
        inner_step(None::<V>, polled) == (None::<V>, Poll::<O>::Pending),
{
}

/// A poll of a fused stream, step by step: an item `Ready(Some(x))` is passed
/// through and the stream is kept; the end `Ready(None)` is passed through
/// and the adapter is emptied; `Pending` is passed through and the stream is
/// kept; an empty adapter answers `Pending` and stays empty.
pub proof fn law_stream_step<V, O>(v: V, x: O, polled: Option<Poll<Option<O>>>)
    ensures
        stream_step(Some(v), Some(Poll::Ready(Some(x)))) == (Some(v), Poll::Ready(Some(x))),
        stream_step(Some(v), Some(Poll::<Option<O>>::Ready(None))) == (
            None::<V>,
            Poll::<Option<O>>::Ready(None),
        ),
        stream_step(Some(v), Some(Poll::<Option<O>>::Pending)) == (
            Some(v),
            Poll::<Option<O>>::Pending,
        ),
        stream_step(None::<V>, polled) == (None::<V>, Poll::<Option<O>>::Pending),
{
}

/// A held value is polled, and its answer handed back; an empty adapter has
/// nothing to poll.
pub proof fn law_observed<V, O>(v: V, answer: Poll<O>)
    ensures
        observed(Some(v), answer) == Some(answer),
        observed(None::<V>, answer) is None,
{
}

/// Successive polls of a fused future that holds a value answer exactly what
/// the value answers, up to and including its first `Ready`.
pub proof fn lemma_future_passes_until_ready<V, O>(v: V, answers: Seq<Poll<O>>, i: int)
    requires
        0 <= i < answers.len(),
        forall|j: int| 0 <= j < i ==> (#[trigger] answers[j]) is Pending,
    ensures
        future_outputs(Some(v), answers)[i] == answers[i],
    decreases i,
{
    let rest = answers.drop_first();
    let (next, out) = future_step(Some(v), observed(Some(v), answers[0]));
    lemma_future_outputs_len(next, rest);
    assert(future_outputs(Some(v), answers) == seq![out] + future_outputs(next, rest));
    if i == 0 {
        match answers[0] {
            Poll::Ready(o) => {},
            Poll::Pending => {},
        }
    } else {
        assert(answers[0] is Pending);
        assert(next == Some(v));
        assert forall|j: int| 0 <= j < i - 1 implies (#[trigger] rest[j]) is Pending by {
            assert(rest[j] == answers[j + 1]);
        }
        lemma_future_passes_until_ready(v, rest, i - 1);
        assert(future_outputs(Some(v), answers)[i] == future_outputs(next, rest)[i - 1]);
    }
}

/// Successive polls of a fused stream that holds a stream answer exactly what
/// the stream answers, up to and including its end `Ready(None)`.
pub proof fn lemma_stream_passes_until_end<V, O>(v: V, answers: Seq<Poll<Option<O>>>, i: int)
    requires
        0 <= i < answers.len(),
        forall|j: int| 0 <= j < i ==> #[trigger] answers[j] != Poll::<Option<O>>::Ready(None),
    ensures
        stream_outputs(Some(v), answers)[i] == answers[i],
    decreases i,
{
    let rest = answers.drop_first();
    let (next, out) = stream_step(Some(v), observed(Some(v), answers[0]));
    lemma_stream_outputs_len(next, rest);
    assert(stream_outputs(Some(v), answers) == seq![out] + stream_outputs(next, rest));
    if i == 0 {
        match answers[0] {
            Poll::Ready(Some(x)) => {},
            Poll::Ready(None) => {},
            Poll::Pending => {},
        }
    } else {
        assert(answers[0] != Poll::<Option<O>>::Ready(None));
        assert(next == Some(v));
        assert forall|j: int| 0 <= j < i - 1 implies #[trigger] rest[j] != Poll::<
            Option<O>,
        >::Ready(None) by {
            assert(rest[j] == answers[j + 1]);
        }
        lemma_stream_passes_until_end(v, rest, i - 1);
        assert(stream_outputs(Some(v), answers)[i] == stream_outputs(next, rest)[i - 1]);
    }
}

} // verus!
