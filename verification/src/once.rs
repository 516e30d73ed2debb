//! A fusing adapter around a future.
use core::future::Future;
use vstd::prelude::*;

use crate::poll::{future_step, Poll, Project};

verus! {

/// Fusing adapter that is capable of polling an interior future.
///
/// Once the future completes, the adapter switches to an empty state and
/// answers `Pending` from then on.
pub struct Once<T> {
    value: Option<T>,
}

impl<T> View for Once<T> {
    type V = Option<T>;

    /// The future held, if any.
    closed spec fn view(&self) -> Option<T> {
        self.value
    }
}

/// Construct a fusing adapter that is capable of polling an interior future.
pub fn once<T>(value: T) -> (r: Once<T>)
    where
        T: Future,
    ensures
        r@ == Some(value),
{
    Once { value: Some(value) }
}

impl<T> Once<T> {
    /// Construct an empty value that can never complete.
    pub fn empty() -> (r: Once<T>)
        ensures
            r@ == None::<T>,
    {
        Once { value: None }
    }

    /// Test if the polled for value is empty.
    pub fn is_empty(&self) -> (b: bool)
        ensures
            b <==> self@ is None,
    {
        self.value.is_none()
    }

    /// The decision of a poll of the adapter, given what polling the future
    /// gave (`None` if there was no future to poll); an empty adapter answers
    /// `Pending` whatever is handed back: once the future is ready the
    /// adapter is emptied.
    pub fn complete_poll<O>(&mut self, polled: Option<Poll<O>>) -> (r: Poll<O>)
        ensures
            (final(self)@, r) == future_step(old(self)@, polled),
    {
        if self.value.is_none() {
            return Poll::Pending;
        }
        match polled {
            Some(Poll::Ready(output)) => {
                self.value = None;
                Poll::Ready(output)
            },
            _ => Poll::Pending,
        }
    }
}

impl<T> Project for Once<T> {
    type Value = T;

    open spec fn slot(&self) -> Option<T> {
        self@
    }

    fn clear(&mut self) {
        self.value = None;
    }

    fn project(&mut self) -> (r: Option<&mut T>) {
        self.value.as_mut()
    }
}

} // verus!
