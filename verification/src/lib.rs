//! A wide (partitioned) read-write lock.
//!
//! The lock keeps one global word and eight local words. Readers take a lock through the
//! local word that their thread id selects when the lock is in local mode, or through the
//! global word otherwise; a writer claims the global word, makes every local word global
//! and waits for the readers still in. `protocol` states this as a state machine over the
//! words and proves that a writer that holds the lock excludes every reader. That proof is
//! of the state machine: the atomic words of `local` and `global` have no view in Verus, so
//! nothing ties their contents to it. What ties the code to it is that every value the code
//! writes is computed by the functions of `word` that the steps use, and that `lock` states
//! exactly where each operation goes from what each of its attempts found (`next_stage`).
pub mod word;
pub mod protocol;
pub mod backoff;
pub mod local;
pub mod global;
pub mod lock;

pub use lock::{WideRwLock, LockOp, Action, Outcome, OpKind, ReadGuard, WriteGuard, UpgradeResult};
pub use global::{UnparkFilter, FilterDecision};
pub use local::SlotPark;
