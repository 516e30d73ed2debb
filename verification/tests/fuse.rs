use async_fuse::{Fuse, Poll, PollFuture, PollInner, PollStream, Project};

#[test]
fn new_is_not_empty() {
    let fuse = Fuse::new(200u32);
    assert!(!fuse.is_empty());
    assert_eq!(fuse.as_inner_ref(), Some(&200));
}

#[test]
fn empty_is_empty() {
    let fuse = Fuse::<u32>::empty();
    assert!(fuse.is_empty());
    assert_eq!(fuse.as_inner_ref(), None);
}

#[test]
fn default_is_empty() {
    let fuse: Fuse<u32> = Fuse::default();
    assert!(fuse.is_empty());
}

#[test]
fn set_then_read() {
    let mut fuse = Fuse::<u32>::empty();
    assert!(fuse.is_empty());
    fuse.set(1);
    assert!(!fuse.is_empty());
    assert_eq!(fuse.as_inner_ref(), Some(&1));
    fuse.set(2);
    assert!(!fuse.is_empty());
    assert_eq!(fuse.as_inner_ref(), Some(&2));
}

#[test]
fn clear_empties() {
    let mut fuse = Fuse::new(5u8);
    assert!(!fuse.is_empty());
    fuse.clear();
    assert!(fuse.is_empty());
    fuse.clear();
    assert!(fuse.is_empty());
}

#[test]
fn as_inner_mut_writes_through() {
    let mut fuse = Fuse::new(42u32);
    assert!(fuse.as_inner_mut().is_some());
    if let Some(value) = fuse.as_inner_mut() {
        *value = 43;
    }
    assert_eq!(fuse.as_inner_ref(), Some(&43));
    let mut empty = Fuse::<u32>::empty();
    assert!(empty.as_inner_mut().is_none());
}

#[test]
fn pin_is_not_empty() {
    let fuse = Fuse::pin(7u64);
    assert!(!fuse.is_empty());
    assert_eq!(fuse.as_inner_ref().map(|p| **p), Some(7));
}

#[test]
fn from_option() {
    let fuse = Fuse::from(Some(3i32));
    assert_eq!(fuse.as_inner_ref(), Some(&3));
    let fuse = Fuse::<i32>::from(None);
    assert!(fuse.is_empty());
}

#[test]
fn from_box_pins() {
    let fuse: Fuse<std::pin::Pin<Box<u8>>> = Fuse::from(Box::new(9u8));
    assert!(!fuse.is_empty());
    assert_eq!(fuse.as_inner_ref().map(|p| **p), Some(9));
    let fuse: Fuse<std::pin::Pin<Box<u8>>> = Fuse::from(Some(Box::new(10u8)));
    assert_eq!(fuse.as_inner_ref().map(|p| **p), Some(10));
    let fuse = Fuse::<std::pin::Pin<Box<u8>>>::from(None::<Box<u8>>);
    assert!(fuse.is_empty());
}

#[test]
fn project_fuse_reaches_value() {
    let mut fuse = Fuse::new(1u32);
    {
        let slot = &mut fuse;
        if let Some(value) = slot.project() {
            *value = 11;
        }
    }
    assert_eq!(fuse.as_inner_ref(), Some(&11));
    {
        let slot = &mut fuse;
        slot.clear();
        assert!(slot.project().is_none());
    }
    assert!(fuse.is_empty());
}

/// Drives a poll future over a fuse: polls the value (if any) with `answer`.
fn poll_future_once(fuse: &mut Fuse<u32>, answer: Poll<u32>) -> Poll<u32> {
    let mut fut = PollFuture::new(fuse, ());
    let (stack, _poll) = fut.project();
    let polled = stack.project().map(|_| answer);
    fut.advance(polled)
}

#[test]
fn poll_future_empties_once_ready() {
    let mut op = Fuse::new(1u32);
    assert_eq!(poll_future_once(&mut op, Poll::Pending), Poll::Pending);
    assert!(!op.is_empty());
    assert_eq!(poll_future_once(&mut op, Poll::Ready(1)), Poll::Ready(1));
    assert!(op.is_empty());
    op.set(2);
    assert!(!op.is_empty());
    assert_eq!(poll_future_once(&mut op, Poll::Ready(2)), Poll::Ready(2));
    assert!(op.is_empty());
}

#[test]
fn fused_future_stays_pending() {
    let mut op = Fuse::new(1u32);
    assert_eq!(poll_future_once(&mut op, Poll::Ready(1)), Poll::Ready(1));
    for _ in 0..3 {
        assert_eq!(poll_future_once(&mut op, Poll::Ready(5)), Poll::Pending);
        assert!(op.is_empty());
    }
}

#[test]
fn poll_inner_never_empties() {
    let mut op = Fuse::new(1u32);
    for answer in [Some(1u32), None, Some(2)] {
        let mut fut = PollInner::new(&mut op, ());
        let (stack, _poll) = fut.project();
        let polled = stack.project().map(|_| match answer {
            Some(v) => Poll::Ready(v),
            None => Poll::Pending,
        });
        let expected = match answer {
            Some(v) => Poll::Ready(v),
            None => Poll::Pending,
        };
        assert_eq!(fut.advance(polled), expected);
        drop(fut);
        assert!(!op.is_empty());
    }
}

fn poll_stream_once(fuse: &mut Fuse<u32>, answer: Poll<Option<u32>>) -> Poll<Option<u32>> {
    let mut fut = PollStream::new(fuse, ());
    let (stack, _poll) = fut.project();
    let polled = stack.project().map(|_| answer);
    fut.advance(polled)
}

#[test]
fn poll_stream_empties_at_end() {
    let mut op = Fuse::new(1u32);
    assert!(!op.is_empty());
    assert_eq!(poll_stream_once(&mut op, Poll::Ready(Some(1))), Poll::Ready(Some(1)));
    assert_eq!(poll_stream_once(&mut op, Poll::Ready(Some(2))), Poll::Ready(Some(2)));
    assert!(!op.is_empty());
    assert_eq!(poll_stream_once(&mut op, Poll::Pending), Poll::Pending);
    assert!(!op.is_empty());
    assert_eq!(poll_stream_once(&mut op, Poll::Ready(None)), Poll::Ready(None));
    assert!(op.is_empty());
    assert_eq!(poll_stream_once(&mut op, Poll::Ready(Some(3))), Poll::Pending);
}

#[test]
fn empty_fuse_is_not_polled() {
    let mut op = Fuse::<u32>::empty();
    let mut fut = PollFuture::new(&mut op, ());
    assert_eq!(fut.advance::<u32>(None), Poll::Pending);
}

#[test]
fn poll_outcome_tests() {
    assert!(Poll::Ready(1u8).is_ready());
    assert!(!Poll::Ready(1u8).is_pending());
    assert!(Poll::<u8>::Pending.is_pending());
    assert!(!Poll::<u8>::Pending.is_ready());
}
