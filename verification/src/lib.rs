//! Helpers for "fusing" asynchronous computations.
//!
//! A fused operation has a well-defined behavior once the operation has
//! completed: an operation that has completed will block forever by
//! answering `Pending`, until a new value is set.
//!
//! The adapters ([`Fuse`], [`Heap`], [`Stack`], [`Once`]) hold an optional
//! value. Polling one is split in two: the value is projected and polled by
//! the caller, and the adapter then decides, from what the poll gave, what
//! is answered and whether the value is dropped (see [`poll`]).
pub mod fuse;
pub mod heap;
pub mod once;
pub mod poll;
pub mod stack;

pub use fuse::Fuse;
pub use heap::Heap;
pub use once::{once, Once};
pub use poll::{Poll, PollFuture, PollInner, PollStream, Project};
pub use stack::Stack;
