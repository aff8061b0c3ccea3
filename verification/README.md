# heng_rs

Interval scheduling of tasks that receive one-way messages.

- `src/time.rs`: `Duration` (a span counted in nanoseconds, bounded as the
  standard library's), the unit helpers `day`, `hour`, `min`, the `Time` builder
  that adds spans up, and the `ToDuration` trait (`1.d()`, `2.h()`, ...).
- `src/context.rs`: the state a scheduled task keeps between its runs (message
  queue, interval, running flag), the control `Signal`s, and the decision to
  restart the ticks after a signal.
- `app/`: the runner itself: channels, locks, timers and spawned futures, which
  drive the verified state.
