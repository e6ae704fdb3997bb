# wait_for_me

A count-down latch: tasks count a shared counter down, and other tasks wait
until it reaches zero.

- `src/` is the verified library, written in Verus. `latch.rs` holds the
  latch's state (`CountDownState`) with a contract on every operation, stated
  over its mathematical view (`LatchView`); `laws.rs` proves what holds across
  several operations (the latch is released by exactly its count of
  count-downs, every registered waiter is woken exactly once, release is final).
- `app/` is the async part: an async-lock based latch and a spin-lock based
  one (`multi`), which hold a `CountDownState<Waker>` and turn its answers
  into futures and wake-ups.
- `tests/` plays the latch's scenarios on the verified state.
