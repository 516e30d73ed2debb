use async_fuse::{Heap, Poll, PollFuture, Project};

#[test]
fn heap_new_set_clear() {
    let mut heap = Heap::new(200u32);
    assert!(!heap.is_empty());
    heap.set(100);
    assert!(!heap.is_empty());
    heap.clear();
    assert!(heap.is_empty());
}

#[test]
fn heap_empty_and_default() {
    let heap = Heap::<u32>::empty();
    assert!(heap.is_empty());
    let heap: Heap<u32> = Heap::default();
    assert!(heap.is_empty());
}

#[test]
fn heap_unsized_values() {
    let mut heap = Heap::<[u32]>::empty();
    assert!(heap.is_empty());
    heap.set_unsized(vec![1, 2].into_boxed_slice());
    assert!(!heap.is_empty());
    heap.set_unsized(vec![3].into_boxed_slice());
    assert!(!heap.is_empty());
    let heap = Heap::<dyn Fn() -> u32>::new_unsized(Box::new(|| 1));
    assert!(!heap.is_empty());
}

#[test]
fn heap_from_conversions() {
    assert!(!Heap::from(Some(1u8)).is_empty());
    assert!(Heap::<u8>::from(None::<u8>).is_empty());
    assert!(!Heap::from(Box::new(2u8)).is_empty());
    assert!(!Heap::<u8>::from(Some(Box::new(3u8))).is_empty());
    assert!(Heap::<u8>::from(None::<Box<u8>>).is_empty());
}

#[test]
fn heap_project_gives_the_box() {
    let mut heap = Heap::new(5u32);
    let slot = &mut heap;
    let value = slot.project().map(|b| **b);
    assert_eq!(value, Some(5));
    slot.clear();
    assert!(slot.project().is_none());
    assert!(heap.is_empty());
}

#[test]
fn heap_future_completes_once() {
    let mut op = Heap::new(1u32);
    assert_eq!(op.complete_poll(Some(Poll::Ready(1u32))), Poll::Ready(1));
    assert!(op.is_empty());
    assert_eq!(op.complete_poll::<u32>(None), Poll::Pending);
    op.set(2);
    assert!(!op.is_empty());
    assert_eq!(op.complete_poll(Some(Poll::<u32>::Pending)), Poll::Pending);
    assert!(!op.is_empty());
    assert_eq!(op.complete_poll(Some(Poll::Ready(2u32))), Poll::Ready(2));
    assert!(op.is_empty());
}

#[test]
fn heap_stream_ends_once() {
    let mut stream = Heap::new(1u32);
    assert!(!stream.is_empty());
    assert_eq!(stream.complete_poll_next(Some(Poll::Ready(Some(1u32)))), Poll::Ready(Some(1)));
    assert_eq!(stream.complete_poll_next(Some(Poll::Ready(Some(2u32)))), Poll::Ready(Some(2)));
    assert_eq!(stream.complete_poll_next(Some(Poll::Ready(None::<u32>))), Poll::Ready(None));
    assert!(stream.is_empty());
    assert_eq!(stream.complete_poll_next::<u32>(None), Poll::Pending);
}

#[test]
fn heap_poll_future_adapter() {
    let mut op = Heap::new(3u32);
    let mut fut = PollFuture::new(&mut op, ());
    let (stack, _poll) = fut.project();
    let polled = stack.project().map(|b| Poll::Ready(**b));
    assert_eq!(fut.advance(polled), Poll::Ready(3));
    drop(fut);
    assert!(op.is_empty());
}

#[test]
fn empty_heap_ignores_a_stray_answer() {
    let mut heap = Heap::<u32>::empty();
    assert_eq!(heap.complete_poll(Some(Poll::Ready(5u32))), Poll::Pending);
    assert!(heap.is_empty());
    assert_eq!(heap.complete_poll_next(Some(Poll::Ready(Some(5u32)))), Poll::Pending);
    assert!(heap.is_empty());
}

#[test]
fn empty_heap_poll_future_ignores_a_stray_answer() {
    let mut heap = Heap::<u32>::empty();
    let mut fut = PollFuture::new(&mut heap, ());
    assert_eq!(fut.advance(Some(Poll::Ready(5u32))), Poll::Pending);
    drop(fut);
    assert!(heap.is_empty());
}
