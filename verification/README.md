# waker_waiter

Lets a future bring its own event polling to whatever runs it. A future finds
the `TopLevelPoller` in its context and registers a `WakerWaiter` on it; the
executor blocks on that waiter while the future cannot go on, and is unblocked
by the waiter's canceler.

- `src/` is the library, proved with Verus.
  - `waiter`, `canceler`: handles and the function tables behind them. A handle
    that is made of an `Arc` owns a share of that `Arc`, and so does each clone.
  - `stock`: by which a handle provides the share of its clone.
  - `ctx_ref`: how a context carries a reference, and how it is found again.
  - `poller`, `error`: the interface that an executor offers to futures.
  - `executor`: which waiter is registered, what an executor blocks on, what a
    waker does about it, and the laws that tie these together.
  - `std_calls`: the few calls into the standard library that are taken on trust.
- `tests/` runs the library.
- `app/` is ordinary Rust around it: threads, locks, and the extension slot of
  `std::task::Context`, which needs a nightly compiler.
