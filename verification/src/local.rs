//! One of the eight local words, and the spin lock of the thread slot next to it.
//!
//! Each method makes at most one attempt at an atomic update; where the lock retries an
//! update until it succeeds, the method returns `None` for "try again". The values
//! written are computed by the functions of `word`, whose contracts say what they are.
use vstd::prelude::*;
use std::sync::atomic::AtomicU32;
use std::sync::atomic::AtomicUsize;
use std::sync::atomic::Ordering;
use parking_lot_core::SpinWait;
use crate::word::{
    Cas, GLOBAL_MASK, plan_local_read, plan_deglobalize, plan_make_global, plan_release,
    decide_local_release_wakes_writer, decide_has_readers, local_read_next, deglobalize_next,
    make_global_next, has_readers, release_next, local_release_wakes_writer,
};

verus! {

/// What an attempt to park a thread in a slot found.
pub enum SlotPark {
    /// The slot's spin lock was busy: back off and try again.
    Retry,
    /// The word has no readers left: there is nothing to wait for (the spin lock is free again).
    Invalid,
    /// The spin lock is held and readers are still in: store the thread in the slot,
    /// release the spin lock and park.
    Acquired,
}

/// What an attempt to park in a slot found, from whether it took the slot's spin lock and,
/// if so, whether the word still counts readers.
pub open spec fn slot_park_of(taken: bool, readers: bool) -> SlotPark {
    if !taken {
        SlotPark::Retry
    } else if readers {
        SlotPark::Acquired
    } else {
        SlotPark::Invalid
    }
}

/// Decides `slot_park_of`.
pub fn slot_park_decision(taken: bool, readers: bool) -> (r: SlotPark)
    ensures
        r == slot_park_of(taken, readers),
{
    if !taken {
        SlotPark::Retry
    } else if readers {
        SlotPark::Acquired
    } else {
        SlotPark::Invalid
    }
}

/// What one round of the slow local read did, having read the word as `seen`: on a global
/// word nothing, and `Some(false)`; otherwise a compare-and-swap of `seen` for
/// `local_read_next(seen)`, and `Some(true)` exactly if it wrote, `None` if not.
pub open spec fn local_read_round(seen: u32, cas: Option<Cas>, r: Option<bool>) -> bool {
    match local_read_next(seen) {
        None => cas is None && r == Some(false),
        Some(n) => cas matches Some(x) && x.expect == seen && x.new == n && r == if x.done {
            Some(true)
        } else {
            None
        },
    }
}

/// A local word: a reader count and the global flag.
pub struct RawLocalLock {
    state: AtomicU32,
    spin_lock: AtomicUsize,
    /// Fills the word out to 64 bytes, so that the lock words lie 64 bytes apart (they are
    /// not aligned to cache lines, so a word may still span two lines).
    padding: [u64; 6],
}

impl RawLocalLock {
    /// A local word that readers may not take (global) and a free spin lock.
    pub fn new() -> (r: RawLocalLock) {
        RawLocalLock {
            state: AtomicU32::new(GLOBAL_MASK),
            spin_lock: AtomicUsize::new(0),
            padding: [0u64; 6],
        }
    }

    /// The state word as it is now.
    pub fn load_state(&self) -> u32 {
        self.state.load(Ordering::Relaxed)
    }

    /// Writes `new_val` if the word is `expect`; tells whether it did, with a record of the
    /// compare-and-swap.
    fn cas_state(&self, expect: u32, new_val: u32) -> (r: (bool, Ghost<Cas>))
        ensures
            r.1@ == (Cas { expect, new: new_val, done: r.0 }),
    {
        let done = self.state.compare_exchange(expect, new_val, Ordering::Release, Ordering::Relaxed).is_ok();
        (done, Ghost(Cas { expect, new: new_val, done }))
    }

    /// The fast local read lock: from a free word to one reader (what `local_read_next` makes
    /// of a free word, by `word::lemma_fast_paths`).
    pub fn try_read_lock_local_fast(&self) -> (r: (bool, Ghost<Cas>))
        ensures
            r.1@ == (Cas { expect: 0, new: 1, done: r.0 }),
    {
        self.cas_state(0, 1)
    }

    /// One round of the slow local read lock: `Some(false)` if the word is global,
    /// `Some(true)` if one more reader was counted, `None` if the word changed meanwhile.
    /// The record holds the value read and the compare-and-swap made.
    pub fn try_read_lock_local_slow_attempt(&self) -> (r: (Option<bool>, Ghost<(u32, Option<Cas>)>))
        ensures
            local_read_round(r.1@.0, r.1@.1, r.0),
    {
        let c = self.load_state();
        match plan_local_read(c) {
            None => (Some(false), Ghost((c, None))),
            Some(n) => {
                let (done, Ghost(x)) = self.cas_state(c, n);
                if done {
                    (Some(true), Ghost((c, Some(x))))
                } else {
                    (None, Ghost((c, Some(x))))
                }
            },
        }
    }

    /// The fast way for the reader that moves the lock to local mode to take its own
    /// word: from global and empty to one reader (`deglobalize_next` of that word, by
    /// `word::lemma_fast_paths`).
    pub fn read_lock_deglobalize_fast(&self) -> (r: (bool, Ghost<Cas>))
        ensures
            r.1@ == (Cas { expect: GLOBAL_MASK, new: 1, done: r.0 }),
    {
        self.cas_state(GLOBAL_MASK, 1)
    }

    /// One round of the slow way: clear the global flag and count one more reader;
    /// `false` if the word changed meanwhile.
    pub fn read_lock_deglobalize_slow_attempt(&self) -> (r: (bool, Ghost<Cas>))
        ensures
            r.1@.new == deglobalize_next(r.1@.expect),
            r.1@.done == r.0,
    {
        let c = self.load_state();
        self.cas_state(c, plan_deglobalize(c))
    }

    /// Clears the global flag of a word that holds nothing else (the step
    /// `DeglobalizeNeighbour` of `protocol`).
    pub fn try_deglobalize(&self) -> (r: Ghost<Cas>)
        ensures
            r@.expect == GLOBAL_MASK,
            r@.new == 0,
    {
        let (_, x) = self.cas_state(GLOBAL_MASK, 0);
        x
    }

    /// One round of making the word global: `Some(true)` if it had no readers,
    /// `Some(false)` if it had some, `None` if it changed meanwhile.
    pub fn make_global_attempt(&self) -> (r: (Option<bool>, Ghost<Cas>))
        ensures
            r.1@.new == make_global_next(r.1@.expect),
            r.0 == if r.1@.done {
                Some(!has_readers(r.1@.expect))
            } else {
                None
            },
    {
        let c = self.load_state();
        let (done, x) = self.cas_state(c, plan_make_global(c));
        if done {
            (Some(!decide_has_readers(c)), x)
        } else {
            (None, x)
        }
    }

    /// Whether the word counts readers now, with the value read.
    pub fn has_readers(&self) -> (r: (bool, Ghost<u32>))
        ensures
            r.0 == has_readers(r.1@),
    {
        let c = self.load_state();
        (decide_has_readers(c), Ghost(c))
    }

    /// The fast local read unlock: from one reader to a free word (`release_next` of one
    /// reader, by `word::lemma_fast_paths`).
    pub fn read_unlock_fast(&self) -> (r: (bool, Ghost<Cas>))
        ensures
            r.1@ == (Cas { expect: 1, new: 0, done: r.0 }),
    {
        self.cas_state(1, 0)
    }

    /// One round of the slow local read unlock: `Some(wake)` once one reader less is
    /// counted, where `wake` tells that a writer waits on this word for its last reader;
    /// `None` if the word changed meanwhile.
    pub fn try_slow_release_shared_attempt(&self) -> (r: (Option<bool>, Ghost<Cas>))
        ensures
            r.1@.new == release_next(r.1@.expect),
            r.0 == if r.1@.done {
                Some(local_release_wakes_writer(r.1@.expect))
            } else {
                None
            },
    {
        let c = self.load_state();
        let (done, x) = self.cas_state(c, plan_release(c));
        if done {
            (Some(decide_local_release_wakes_writer(c)), x)
        } else {
            (None, x)
        }
    }

    /// One attempt to take the slot's spin lock; backs off when it is busy.
    pub fn acquire_slot_attempt(&self, spinwait: &mut SpinWait) -> bool {
        if self.spin_lock.compare_exchange(0, 1, Ordering::Release, Ordering::Relaxed).is_ok() {
            true
        } else {
            let _ = spinwait.spin();
            false
        }
    }

    /// Releases the slot's spin lock.
    pub fn release_slot(&self) {
        self.spin_lock.store(0, Ordering::Release);
    }

    /// One attempt to park the current thread in the slot (park only while readers are still in).
    pub fn park_attempt(&self, spinwait: &mut SpinWait) -> SlotPark {
        let taken = self.acquire_slot_attempt(spinwait);
        let readers = taken && self.has_readers().0;
        let r = slot_park_decision(taken, readers);
        if matches!(r, SlotPark::Invalid) {
            self.release_slot();
        }
        r
    }
}

} // verus!
