//! A computation of one value as a sequence of one item.

use futures_core::future::Future;
use futures_core::task::{Context, Poll};
use std::pin::Pin;
use vstd::prelude::*;

verus! {

/// `std::pin::Pin`: a pointer whose target stays where it is. Nothing is known of what it
/// holds; the adapter keeps its computation behind one and only hands it to be polled.
#[verifier::external_type_specification]
#[verifier::external_body]
#[verifier::reject_recursive_types(Ptr)]
pub struct ExPin<Ptr>(Pin<Ptr>);

/// `Box::pin`: moves `future` to the heap and pins it there. Nothing is claimed of the
/// result.
#[verifier::external_body]
fn pin_boxed<Fut>(future: Fut) -> Pin<Box<Fut>> {
    Box::pin(future)
}

/// `Future::poll` on the pinned computation, reached through `Pin::as_mut`. Nothing is
/// claimed of the report or of the state the computation is left in: both are the
/// computation's own business.
#[verifier::external_body]
fn poll_pinned<Fut: Future>(future: &mut Pin<Box<Fut>>, cx: &mut Context<'_>) -> Poll<
    Fut::Output,
> {
    future.as_mut().poll(cx)
}

/// One poll of the adapter: from whether it had terminated and what its computation
/// reports when asked, to whether it has terminated now and what it reports itself. An
/// adapter that had terminated does not ask, so `outcome` plays no part then.
pub open spec fn step<T>(terminated: bool, outcome: Poll<T>) -> (bool, Poll<Option<T>>) {
    if terminated {
        (true, Poll::Ready(None))
    } else {
        match outcome {
            Poll::Pending => (false, Poll::Pending),
            Poll::Ready(item) => (true, Poll::Ready(Some(item))),
        }
    }
}

/// What the adapter reports, poll by poll, over a run of polls at which its computation,
/// when asked, would answer with `outcomes` in turn.
pub open spec fn reports<T>(terminated: bool, outcomes: Seq<Poll<T>>) -> Seq<Poll<Option<T>>>
    decreases outcomes.len(),
{
    if outcomes.len() == 0 {
        Seq::empty()
    } else {
        let (next, report) = step(terminated, outcomes.first());
        seq![report] + reports(next, outcomes.drop_first())
    }
}

/// Whether the adapter has terminated after such a run.
pub open spec fn terminated_after<T>(terminated: bool, outcomes: Seq<Poll<T>>) -> bool
    decreases outcomes.len(),
{
    if outcomes.len() == 0 {
        terminated
    } else {
        terminated_after(step(terminated, outcomes.first()).0, outcomes.drop_first())
    }
}

/// One report for each poll of the run.
pub proof fn lemma_one_report_per_poll<T>(terminated: bool, outcomes: Seq<Poll<T>>)
    ensures
        reports(terminated, outcomes).len() == outcomes.len(),
    decreases outcomes.len(),
{
    if outcomes.len() > 0 {
        lemma_one_report_per_poll(step(terminated, outcomes.first()).0, outcomes.drop_first());
    }
}

/// The end is absorbing: an adapter that has terminated reports the end of the sequence at
/// every poll, never an item, and stays terminated, whatever its computation would answer.
pub proof fn lemma_end_is_absorbing<T>(outcomes: Seq<Poll<T>>)
    ensures
        reports(true, outcomes).len() == outcomes.len(),
        forall|i: int|
            0 <= i < outcomes.len() ==> reports(true, outcomes)[i] == Poll::<Option<T>>::Ready(
                None,
            ),
        terminated_after(true, outcomes),
    decreases outcomes.len(),
{
    if outcomes.len() > 0 {
        lemma_end_is_absorbing(outcomes.drop_first());
    }
}

/// No end without an item: while the computation keeps answering `Pending`, so does the
/// adapter, and it has not terminated.
pub proof fn lemma_pending_never_ends<T>(outcomes: Seq<Poll<T>>)
    requires
        forall|i: int| 0 <= i < outcomes.len() ==> outcomes[i] is Pending,
    ensures
        reports(false, outcomes).len() == outcomes.len(),
        forall|i: int| 0 <= i < outcomes.len() ==> reports(false, outcomes)[i] is Pending,
        !terminated_after(false, outcomes),
    decreases outcomes.len(),
{
    if outcomes.len() > 0 {
        lemma_pending_never_ends(outcomes.drop_first());
    }
}

/// One item, once: when the computation answers `Pending` to the first `n` polls and then
/// produces `item`, a fresh adapter reports `Pending` `n` times, then `item`, and then the
/// end of the sequence at every later poll, whatever the computation would answer by then.
pub proof fn lemma_one_item_then_end<T>(outcomes: Seq<Poll<T>>, n: int, item: T)
    requires
        0 <= n < outcomes.len(),
        forall|i: int| 0 <= i < n ==> outcomes[i] is Pending,
        outcomes[n] == Poll::Ready(item),
    ensures
        reports(false, outcomes).len() == outcomes.len(),
        forall|i: int| 0 <= i < n ==> reports(false, outcomes)[i] is Pending,
        reports(false, outcomes)[n] == Poll::Ready(Some(item)),
        forall|i: int|
            n < i < outcomes.len() ==> reports(false, outcomes)[i] == Poll::<Option<T>>::Ready(
                None,
            ),
        terminated_after(false, outcomes),
    decreases n,
{
    if n == 0 {
        lemma_end_is_absorbing(outcomes.drop_first());
    } else {
        lemma_one_item_then_end(outcomes.drop_first(), n - 1, item);
    }
}

/// Never a second item: over any run of polls, whatever the computation would answer, a
/// fresh adapter reports an item at one poll at most.
pub proof fn lemma_at_most_one_item<T>(outcomes: Seq<Poll<T>>, i: int, j: int)
    requires
        0 <= i < outcomes.len(),
        0 <= j < outcomes.len(),
        reports(false, outcomes)[i] matches Poll::Ready(Some(_)),
        reports(false, outcomes)[j] matches Poll::Ready(Some(_)),
    ensures
        i == j,
    decreases outcomes.len(),
{
    let rest = outcomes.drop_first();
    match outcomes.first() {
        Poll::Pending => {
            lemma_one_report_per_poll(false, rest);
            lemma_at_most_one_item(rest, i - 1, j - 1);
        },
        Poll::Ready(_) => {
            lemma_end_is_absorbing(rest);
        },
    }
}

/// A sequence of one item: the value that a computation produces.
///
/// The adapter owns the computation in a slot and empties the slot when the computation has
/// produced its value. From then on the adapter has terminated: it reports the end of the
/// sequence at every poll and never asks the computation again. The computation lives on
/// the heap and stays at its address from the first poll to its end, wherever the adapter
/// itself is moved.
#[derive(Debug)]
#[must_use]
#[verifier::reject_recursive_types(Fut)]
pub struct IntoStream<Fut: Future> {
    future: Option<Pin<Box<Fut>>>,
}

impl<Fut: Future> IntoStream<Fut> {
    /// Whether the slot is empty: the item has been reported.
    pub closed spec fn is_terminated(&self) -> bool {
        self.future is None
    }

    /// An adapter that holds `future` and has not terminated. The adapter will poll
    /// `future`, so `future` must not have produced its value already.
    pub fn new(future: Fut) -> (stream: Self)
        ensures
            !stream.is_terminated(),
    {
        IntoStream { future: Some(pin_boxed(future)) }
    }

    /// Takes in what the computation reported and gives the adapter's own report, as
    /// [`step`] has it: `Pending` leaves everything as it is, `Ready` with a value empties
    /// the slot and makes the value the one item. An adapter that has terminated reports
    /// the end of the sequence whatever `outcome` is, and stays as it is.
    pub fn settle(&mut self, outcome: Poll<Fut::Output>) -> (report: Poll<Option<Fut::Output>>)
        ensures
            (final(self).is_terminated(), report) == step(old(self).is_terminated(), outcome),
            old(self).is_terminated() || outcome is Pending ==> *final(self) == *old(self),
    {
        if self.future.is_none() {
            return Poll::Ready(None);
        }
        match outcome {
            Poll::Pending => Poll::Pending,
            Poll::Ready(item) => {
                self.future = None;
                Poll::Ready(Some(item))
            },
        }
    }

    /// Polls the adapter. While it holds its computation it polls that and settles on what
    /// came back: it reports `Pending` and goes on, or reports the item and has terminated.
    /// Once it has terminated it reports the end of the sequence, polls nothing and stays
    /// as it is.
    pub fn poll_next(&mut self, cx: &mut Context<'_>) -> (report: Poll<Option<Fut::Output>>)
        ensures
            old(self).is_terminated() ==> *final(self) == *old(self) && report
                == Poll::<Option<Fut::Output>>::Ready(None),
            !old(self).is_terminated() ==> {
                ||| !final(self).is_terminated() && report is Pending
                ||| final(self).is_terminated() && report matches Poll::Ready(Some(_))
            },
    {
        match &mut self.future {
            None => Poll::Ready(None),
            Some(future) => {
                let outcome = poll_pinned(future, cx);
                self.settle(outcome)
            },
        }
    }
}

} // verus!
