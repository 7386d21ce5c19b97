//! A writer's flush as a computation of one value.

use futures_core::task::Poll;
use vstd::prelude::*;

verus! {

/// `std::io::Error`, the reason a flush failed. Nothing is known of what it holds; it is
/// only carried from the writer to the caller.
#[verifier::external_type_specification]
#[verifier::external_body]
pub struct ExIoError(std::io::Error);

/// The operation of flushing a writer, for as long as it borrows the writer.
///
/// The operation has no state of its own. It holds the one mutable borrow of the writer, so
/// nothing else can reach the writer until the operation is dropped, and dropping it is the
/// only way to cancel the flush.
#[derive(Debug)]
#[must_use]
pub struct Flush<'a, W: ?Sized> {
    writer: &'a mut W,
}

impl<'a, W: ?Sized> Flush<'a, W> {
    /// The borrow of the writer that the operation holds.
    pub closed spec fn writer(&self) -> &mut W {
        self.writer
    }

    /// An operation that flushes `writer`. The operation sees the writer as it is now, and
    /// the caller gets it back as the operation leaves it.
    pub fn new(writer: &'a mut W) -> (op: Self)
        ensures
            &*op.writer() == &*old(writer),
            &*final(op.writer()) == &*final(writer),
    {
        Flush { writer }
    }

    /// The writer, to make an attempt to flush on it. What is done to the writer through the
    /// result is done to the writer that the operation holds.
    pub fn get_mut(&mut self) -> (writer: &mut W)
        ensures
            &*writer == &*old(self).writer(),
            &*final(self).writer() == &*final(writer),
            &*final(final(self).writer()) == &*final(old(self).writer()),
    {
        &mut *self.writer
    }

    /// Release: an operation that is not used any more has left the writer as it last saw
    /// it, which is how the caller of [`Flush::new`] finds the writer afterwards.
    pub proof fn lemma_released(self)
        requires
            has_resolved(self),
        ensures
            &*final(self.writer()) == &*self.writer(),
    {
    }

    /// What the operation reports when the writer has answered an attempt to flush with
    /// `attempt`: the same, be it `Pending`, `Ready(Ok(()))` or `Ready(Err(e))` with the
    /// very `e` of the writer. Nothing is retried, kept or turned into something else, and
    /// the operation is as it was.
    pub fn poll(&mut self, attempt: Poll<Result<(), std::io::Error>>) -> (report: Poll<
        Result<(), std::io::Error>,
    >)
        ensures
            report == attempt,
            *final(self) == *old(self),
    {
        attempt
    }
}

} // verus!
