//! A fusing adapter around a value.
use core::pin::Pin;
use vstd::prelude::*;
use vstd::std_specs::convert::FromSpecImpl;

use crate::poll::Project;

verus! {

/// `Pin` is opaque to verification: a pinned pointer is carried through, and
/// nothing is claimed of what it points to.
#[verifier::external_type_specification]
#[verifier::external_body]
#[verifier::reject_recursive_types(Ptr)]
pub struct ExPin<Ptr>(Pin<Ptr>);

/// Calls `Box::pin`, which boxes `value` and pins the box. What the pinned box
/// holds is not stated: a `Pin` is opaque to verification.
#[verifier::external_body]
fn box_pin<T>(value: T) -> (r: Pin<Box<T>>) {
    Box::pin(value)
}

/// Calls `Box::into_pin`, which pins an existing box without moving its
/// contents. What the pinned box holds is not stated: a `Pin` is opaque to
/// verification.
#[verifier::external_body]
fn box_into_pin<T: ?Sized>(value: Box<T>) -> (r: Pin<Box<T>>) {
    Box::into_pin(value)
}

/// A fusing adapter around a value.
///
/// A `Fuse<T>` is similar to `Option<T>`: it either holds a value or is
/// empty. Once the value it polls completes, the adapter switches to its
/// empty state, and every later poll answers `Pending` until a new value is
/// set with [`Fuse::set`].
pub struct Fuse<T> {
    value: Option<T>,
}

impl<T> View for Fuse<T> {
    type V = Option<T>;

    /// The value held, if any.
    closed spec fn view(&self) -> Option<T> {
        self.value
    }
}

impl<T> Fuse<Pin<Box<T>>> {
    /// Construct a fusing adapter around a value, pinned on the heap.
    pub fn pin(value: T) -> (r: Self)
        ensures
            r@ is Some,
    {
        Fuse { value: Some(box_pin(value)) }
    }
}

impl<T> Fuse<T> {
    /// Construct a fusing adapter around a value.
    pub fn new(value: T) -> (r: Self)
        ensures
            r@ == Some(value),
    {
        Fuse { value: Some(value) }
    }

    /// Set the fused value, replacing the one held, if any.
    pub fn set(&mut self, value: T)
        ensures
            final(self)@ == Some(value),
    {
        self.value = Some(value);
    }

    /// Clear the fused value.
    pub fn clear(&mut self)
        ensures
            final(self)@ == None::<T>,
    {
        self.value = None;
    }

    /// Construct an empty fuse.
    pub fn empty() -> (r: Self)
        ensures
            r@ == None::<T>,
    {
        Fuse { value: None }
    }

    /// Test if the polled for value is empty.
    pub fn is_empty(&self) -> (b: bool)
        ensures
            b <==> self@ is None,
    {
        self.value.is_none()
    }

    /// Access the interior value as a reference.
    pub fn as_inner_ref(&self) -> (r: Option<&T>)
        ensures
            r is Some <==> self@ is Some,
            r is Some ==> *r.unwrap() == self@.unwrap(),
    {
        self.value.as_ref()
    }

    /// Access the interior value as a mutable reference.
    pub fn as_inner_mut(&mut self) -> (r: Option<&mut T>)
        ensures
            r is Some <==> old(self)@ is Some,
            r is Some ==> *r.unwrap() == old(self)@.unwrap() && final(self)@ == Some(
                *final(r.unwrap()),
            ),
            r is None ==> final(self)@ == None::<T>,
    {
        self.value.as_mut()
    }
}

impl<T> From<Option<T>> for Fuse<T> {
    /// A fuse that holds the value of the option, if any.
    fn from(value: Option<T>) -> (r: Self)
        ensures
            r@ == value,
    {
        Fuse { value }
    }
}

impl<T> FromSpecImpl<Option<T>> for Fuse<T> {
    open spec fn obeys_from_spec() -> bool {
        true
    }

    closed spec fn from_spec(v: Option<T>) -> Self {
        Fuse { value: v }
    }
}

impl<T> From<Box<T>> for Fuse<Pin<Box<T>>> {
    /// A fuse that holds the box, pinned.
    fn from(value: Box<T>) -> (r: Self)
        ensures
            r@ is Some,
    {
        Fuse { value: Some(box_into_pin(value)) }
    }
}

impl<T> FromSpecImpl<Box<T>> for Fuse<Pin<Box<T>>> {
    /// What a pinned box holds is opaque, so the conversion is described by
    /// the `ensures` of `from`, and this spec says no more than it does.
    open spec fn obeys_from_spec() -> bool {
        false
    }

    closed spec fn from_spec(v: Box<T>) -> Self {
        choose|f: Self| f@ is Some
    }
}

impl<T> From<Option<Box<T>>> for Fuse<Pin<Box<T>>> {
    /// A fuse that holds the box of the option, pinned, if there is one.
    fn from(value: Option<Box<T>>) -> (r: Self)
        ensures
            r@ is Some <==> value is Some,
    {
        match value {
            Some(boxed) => Fuse { value: Some(box_into_pin(boxed)) },
            None => Fuse { value: None },
        }
    }
}

impl<T> FromSpecImpl<Option<Box<T>>> for Fuse<Pin<Box<T>>> {
    /// What a pinned box holds is opaque, so the conversion is described by
    /// the `ensures` of `from`, and this spec says no more than it does.
    open spec fn obeys_from_spec() -> bool {
        false
    }

    closed spec fn from_spec(v: Option<Box<T>>) -> Self {
        choose|f: Self| (f@ is Some) == (v is Some)
    }
}

impl<T> Default for Fuse<T> {
    /// An empty fuse.
    fn default() -> (r: Self)
        ensures
            r@ == None::<T>,
    {
        Fuse { value: None }
    }
}

impl<T> Project for Fuse<T> {
    type Value = T;

    open spec fn slot(&self) -> Option<T> {
        self@
    }

    fn clear(&mut self) {
        self.value = None;
    }

    fn project(&mut self) -> (r: Option<&mut T>) {
        self.value.as_mut()
    }
}

} // verus!
