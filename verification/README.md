# widerwlock

A wide (8x partitioned) read-write lock whose locking protocol is verified with Verus.

- `src/word.rs`: the layout of the lock words and the computations on them (exact contracts).
- `src/protocol.rs`: the protocol as a state machine over the words, its invariant, and the
  laws proved of every reachable state (a writer that holds the lock excludes every reader,
  one writer at a time, writer preference, atomic upgrade of a single global reader, wake-ups).
  These laws are proved of the state machine only: std's atomics have no view in Verus, so
  no proof ties the contents of the lock's atomic words to it.
- `src/local.rs`, `src/global.rs`: the atomic words; each method makes one attempt at an update.
- `src/lock.rs`: the operations (read, write, unlocks, upgrade, downgrade) as step-by-step
  `LockOp`s; each step says what the caller must do next (go on, spin, park, wake, done).
  The starters fix the first stage; each `step` makes one attempt on a word and hands what
  it found (`Seen`) to `decide_next`, whose contract (`next_stage`) gives the next stage and
  action exactly; `step_fits` sums up the stages each step may move to.
- Each word is padded to 64 bytes so that the nine words lie 64 bytes apart (not aligned to
  cache lines, which the accepted attributes cannot ask for).
- `src/backoff.rs`: the spinning back-off of `parking_lot_core` used by the slot spin locks.
- `app/lib.rs`: the lock with its data (`WideRwLock<T>`, guards, `Deref`), thread ids, and the
  driver that runs each operation, parking and waking threads through `parking_lot_core`.
