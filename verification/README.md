# async-fuse

Fusing adapters for asynchronous values: an adapter holds an optional value,
and once the value it polls completes, the adapter empties itself and answers
`Pending` from then on, until a new value is set.

- `src/` is the verified library. `Fuse`, `Heap`, `Stack` and `Once` hold the
  value and implement `Project`, through which a poll reaches it. `poll`
  holds the decisions taken after each poll (what is answered, whether the
  value is dropped): `PollFuture`, `PollInner` and `PollStream` borrow an
  adapter and state each decision on it, and `Heap`, `Stack` and `Once` have
  their own `complete_poll` and `complete_poll_next`. Each decision is one
  step of a model of successive polls (`future_step`, `inner_step`,
  `stream_step`); the laws of fused polling (a completed future or an ended
  stream answers `Pending` to every later poll; `poll_inner` answers what the
  value answers) are proved over that model, and hold of an adapter because
  each poll's contract is that step on the adapter's view. An empty adapter
  answers `Pending` and stays empty whatever a caller hands back, so these
  laws do not rest on the caller reporting an empty adapter correctly.
- `app/` pins and polls: the `Future` and `Stream` implementations, the
  `async` helpers (`poll_future`, `poll_inner`, `poll_stream`, `next`), and
  `as_pin_mut`, which is only `Pin::new` and so has nothing to verify. Each
  poll hands what the value gave to the library and returns what it decides.
- `tests/` exercises the library on concrete values.
