//! A fusing adapter that stores its value inline.
use vstd::prelude::*;
use vstd::std_specs::convert::FromSpecImpl;

use crate::poll::{future_step, stream_step, Poll, Project};

verus! {

/// A fusing adapter that stores its value inline, and is pinned (on the
/// stack, for instance) to be polled.
///
/// For most operations, if the value completes, the adapter switches to an
/// empty state and answers `Pending` until set again.
pub struct Stack<T> {
    value: Option<T>,
}

impl<T> View for Stack<T> {
    type V = Option<T>;

    /// The value held, if any.
    closed spec fn view(&self) -> Option<T> {
        self.value
    }
}

impl<T> Stack<T> {
    /// Construct a fusing adapter that might need to be pinned.
    pub fn new(value: T) -> (r: Self)
        ensures
            r@ == Some(value),
    {
        Stack { value: Some(value) }
    }

    /// Set the fused value, replacing the one held, if any.
    pub fn set(&mut self, value: T)
        ensures
            final(self)@ == Some(value),
    {
        self.value = Some(value);
    }

    /// Clear the fused value.
    pub fn clear(&mut self)
        ensures
            final(self)@ == None::<T>,
    {
        self.value = None;
    }

    /// Construct an empty fuse.
    pub fn empty() -> (r: Self)
        ensures
            r@ == None::<T>,
    {
        Stack { value: None }
    }

    /// Test if the polled for value is empty.
    pub fn is_empty(&self) -> (b: bool)
        ensures
            b <==> self@ is None,
    {
        self.value.is_none()
    }

    /// Access the interior value as a reference.
    pub fn as_inner_ref(&self) -> (r: Option<&T>)
        ensures
            r is Some <==> self@ is Some,
            r is Some ==> *r.unwrap() == self@.unwrap(),
    {
        self.value.as_ref()
    }

    /// Access the interior value as a mutable reference.
    pub fn as_inner_mut(&mut self) -> (r: Option<&mut T>)
        ensures
            r is Some <==> old(self)@ is Some,
            r is Some ==> *r.unwrap() == old(self)@.unwrap() && final(self)@ == Some(
                *final(r.unwrap()),
            ),
            r is None ==> final(self)@ == None::<T>,
    {
        self.value.as_mut()
    }

    /// The decision of a poll of the stack as a future, given what polling
    /// the value gave (`None` if there was no value to poll); an empty
    /// adapter answers `Pending` whatever is handed back: once the value is
    /// ready the stack is emptied.
    pub fn complete_poll<O>(&mut self, polled: Option<Poll<O>>) -> (r: Poll<O>)
        ensures
            (final(self)@, r) == future_step(old(self)@, polled),
    {
        if self.value.is_none() {
            return Poll::Pending;
        }
        match polled {
            Some(Poll::Ready(output)) => {
                self.value = None;
                Poll::Ready(output)
            },
            _ => Poll::Pending,
        }
    }

    /// The decision of a poll of the stack as a stream, given what polling
    /// the stream gave (`None` if there was no value to poll); an empty
    /// adapter answers `Pending` whatever is handed back: once the stream
    /// ends the stack is emptied.
    pub fn complete_poll_next<O>(&mut self, polled: Option<Poll<Option<O>>>) -> (r: Poll<
        Option<O>,
    >)
        ensures
            (final(self)@, r) == stream_step(old(self)@, polled),
    {
        if self.value.is_none() {
            return Poll::Pending;
        }
        match polled {
            Some(Poll::Ready(output)) => {
                if output.is_none() {
                    self.value = None;
                }
                Poll::Ready(output)
            },
            _ => Poll::Pending,
        }
    }
}

impl<T> From<Option<T>> for Stack<T> {
    /// A stack fuse that holds the value of the option, if any.
    fn from(value: Option<T>) -> (r: Self)
        ensures
            r@ == value,
    {
        Stack { value }
    }
}

impl<T> FromSpecImpl<Option<T>> for Stack<T> {
    open spec fn obeys_from_spec() -> bool {
        true
    }

    closed spec fn from_spec(v: Option<T>) -> Self {
        Stack { value: v }
    }
}

impl<T> Default for Stack<T> {
    /// An empty stack fuse.
    fn default() -> (r: Self)
        ensures
            r@ == None::<T>,
    {
        Stack { value: None }
    }
}

impl<T> Project for Stack<T> {
    type Value = T;

    open spec fn slot(&self) -> Option<T> {
        self@
    }

    fn clear(&mut self) {
        self.value = None;
    }

    fn project(&mut self) -> (r: Option<&mut T>) {
        self.value.as_mut()
    }
}

} // verus!
