//! A fusing adapter that stores its value on the heap.
use vstd::prelude::*;
use vstd::std_specs::convert::FromSpecImpl;

use crate::poll::{future_step, stream_step, Poll, Project};

verus! {

/// A fusing adapter that stores its value on the heap.
///
/// The value lives in a box, so it does not move when the adapter moves; this
/// is what lets the value be polled pinned while the adapter itself is not.
/// For most operations, if the value completes, the adapter switches to an
/// empty state and answers `Pending` until set again.
pub struct Heap<T: ?Sized> {
    value: Option<Box<T>>,
}

impl<T: ?Sized> View for Heap<T> {
    type V = Option<Box<T>>;

    /// The boxed value held, if any.
    closed spec fn view(&self) -> Option<Box<T>> {
        self.value
    }
}

impl<T> Heap<T> {
    /// Construct a fusing adapter that stores a value on the heap.
    pub fn new(value: T) -> (r: Self)
        ensures
            r@ == Some(Box::new(value)),
    {
        Heap { value: Some(Box::new(value)) }
    }

    /// Set the fused value, replacing the one held, if any.
    pub fn set(&mut self, value: T)
        ensures
            final(self)@ == Some(Box::new(value)),
    {
        self.value = Some(Box::new(value));
    }
}

impl<T: ?Sized> Heap<T> {
    /// Construct a fusing adapter from a value that is already boxed. This
    /// takes unsized values, such as trait objects.
    pub fn new_unsized(value: Box<T>) -> (r: Self)
        ensures
            r@ == Some(value),
    {
        Heap { value: Some(value) }
    }

    /// Set the value from a box, replacing the one held, if any.
    pub fn set_unsized(&mut self, value: Box<T>)
        ensures
            final(self)@ == Some(value),
    {
        self.value = Some(value);
    }

    /// Construct an empty heap fuse.
    pub fn empty() -> (r: Self)
        ensures
            r@ == None::<Box<T>>,
    {
        Heap { value: None }
    }

    /// Clear the fused value.
    pub fn clear(&mut self)
        ensures
            final(self)@ == None::<Box<T>>,
    {
        self.value = None;
    }

    /// Test if the polled for value is empty.
    pub fn is_empty(&self) -> (b: bool)
        ensures
            b <==> self@ is None,
    {
        self.value.is_none()
    }

    /// The decision of a poll of the heap as a future, given what polling the
    /// value gave (`None` if there was no value to poll); an empty adapter
    /// answers `Pending` whatever is handed back: once the value is ready the
    /// heap is emptied.
    pub fn complete_poll<O>(&mut self, polled: Option<Poll<O>>) -> (r: Poll<O>)
        ensures
            (final(self)@, r) == future_step(old(self)@, polled),
    {
        if self.value.is_none() {
            return Poll::Pending;
        }
        match polled {
            Some(Poll::Ready(output)) => {
                self.value = None;
                Poll::Ready(output)
            },
            _ => Poll::Pending,
        }
    }

    /// The decision of a poll of the heap as a stream, given what polling the
    /// stream gave (`None` if there was no value to poll); an empty adapter
    /// answers `Pending` whatever is handed back: once the stream ends the
    /// heap is emptied.
    pub fn complete_poll_next<O>(&mut self, polled: Option<Poll<Option<O>>>) -> (r: Poll<
        Option<O>,
    >)
        ensures
            (final(self)@, r) == stream_step(old(self)@, polled),
    {
        if self.value.is_none() {
            return Poll::Pending;
        }
        match polled {
            Some(Poll::Ready(output)) => {
                if output.is_none() {
                    self.value = None;
                }
                Poll::Ready(output)
            },
            _ => Poll::Pending,
        }
    }
}

/// The option's value, boxed.
pub open spec fn boxed<T>(value: Option<T>) -> Option<Box<T>> {
    match value {
        Some(v) => Some(Box::new(v)),
        None => None,
    }
}

/// Boxing an option keeps its value: `Some(x)` becomes `Some` of a box
/// holding `x`, and `None` stays `None`.
pub proof fn law_boxed<T>(x: T)
    ensures
        boxed(Some(x)) == Some(Box::new(x)),
        boxed(None::<T>) == None::<Box<T>>,
{
}

impl<T> From<Option<T>> for Heap<T> {
    /// A heap fuse that holds the value of the option, if any.
    fn from(value: Option<T>) -> (r: Self)
        ensures
            r@ == boxed(value),
            value is Some ==> r@ == Some(Box::new(value->0)),
            value is None ==> r@ is None,
    {
        match value {
            Some(v) => Heap { value: Some(Box::new(v)) },
            None => Heap { value: None },
        }
    }
}

impl<T> FromSpecImpl<Option<T>> for Heap<T> {
    open spec fn obeys_from_spec() -> bool {
        true
    }

    closed spec fn from_spec(v: Option<T>) -> Self {
        Heap { value: boxed(v) }
    }
}

impl<T> From<Box<T>> for Heap<T> {
    /// A heap fuse that holds the box.
    fn from(value: Box<T>) -> (r: Self)
        ensures
            r@ == Some(value),
    {
        Heap { value: Some(value) }
    }
}

impl<T> FromSpecImpl<Box<T>> for Heap<T> {
    open spec fn obeys_from_spec() -> bool {
        true
    }

    closed spec fn from_spec(v: Box<T>) -> Self {
        Heap { value: Some(v) }
    }
}

impl<T> From<Option<Box<T>>> for Heap<T> {
    /// A heap fuse that holds the box of the option, if any.
    fn from(value: Option<Box<T>>) -> (r: Self)
        ensures
            r@ == value,
    {
        Heap { value }
    }
}

impl<T> FromSpecImpl<Option<Box<T>>> for Heap<T> {
    open spec fn obeys_from_spec() -> bool {
        true
    }

    closed spec fn from_spec(v: Option<Box<T>>) -> Self {
        Heap { value: v }
    }
}

impl<T: ?Sized> Default for Heap<T> {
    /// An empty heap fuse.
    fn default() -> (r: Self)
        ensures
            r@ == None::<Box<T>>,
    {
        Heap { value: None }
    }
}

impl<T: ?Sized> Project for Heap<T> {
    type Value = Box<T>;

    open spec fn slot(&self) -> Option<Box<T>> {
        self@
    }

    fn clear(&mut self) {
        self.value = None;
    }

    fn project(&mut self) -> (r: Option<&mut Box<T>>) {
        match &mut self.value {
            Some(value) => Some(value),
            None => None,
        }
    }
}

} // verus!
