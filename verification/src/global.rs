//! The global word, the flag that tells whether threads are parked on it, the local
//! bias of readers, and the slot of the writer that waits for global readers.
//!
//! Each method makes at most one attempt at an atomic update; where the lock retries an
//! update until it succeeds, the method returns `None` (or `false`) for "try again". The
//! values written are computed by the functions of `word`.
use vstd::prelude::*;
use std::sync::atomic::AtomicBool;
use std::sync::atomic::AtomicU32;
use std::sync::atomic::Ordering;
use parking_lot_core::SpinWait;
use crate::local::{SlotPark, slot_park_decision};
use crate::word::{
    Cas, writer_bit, go_local_next, write_claim, release_next, global_release_wakes_writer,
    clear_prep_next, has_readers, read_park_valid, write_park_valid,
    GLOBAL_MASK, WRITER_MASK, READ_PARK_TOKEN, WRITE_PARK_TOKEN, plan_fast_read, plan_bias,
    plan_go_local, plan_clear_prep, plan_write_claim, plan_release,
    decide_global_release_wakes_writer, decide_has_readers, decide_read_park_valid,
    decide_write_park_valid,
};

verus! {

/// What the global half of a read-lock attempt found.
#[derive(Clone, Copy)]
pub enum GlobalReadTry {
    /// The reader has started to move the lock to local mode.
    GoLocal,
    /// The lock is in local mode: try the reader's local word.
    TryLocal,
    /// A writer or another reader moving the lock to local mode is in the way.
    Blocked,
}

/// What the global half of a read-lock attempt found, from the word `c` it read and whether
/// its move to local mode succeeded: then the reader goes local; otherwise, if the word was in
/// local mode, the reader tries its local word; else it is blocked.
pub open spec fn global_read_choice_of(c: u32, went_local: bool) -> GlobalReadTry {
    if went_local {
        GlobalReadTry::GoLocal
    } else if c & GLOBAL_MASK == 0 {
        GlobalReadTry::TryLocal
    } else {
        GlobalReadTry::Blocked
    }
}

/// Decides `global_read_choice_of`.
pub fn global_read_choice(c: u32, went_local: bool) -> (r: GlobalReadTry)
    ensures
        r == global_read_choice_of(c, went_local),
{
    if went_local {
        GlobalReadTry::GoLocal
    } else if c & GLOBAL_MASK == 0 {
        GlobalReadTry::TryLocal
    } else {
        GlobalReadTry::Blocked
    }
}

/// What a fast global read did: no compare-and-swap (the local bias was too high), or one
/// that expected a word without the writer flag and would add one reader to it; the read
/// lock is taken exactly if that compare-and-swap wrote.
pub open spec fn fast_read_round(cas: Option<Cas>, r: bool) -> bool {
    &&& r == (cas matches Some(x) && x.done)
    &&& (cas matches Some(x) ==> !writer_bit(x.expect) && x.new == x.expect + 1)
}

/// What the global half of a read attempt did, having read the word as `seen`: where the
/// word allows a move to local mode, a compare-and-swap of `seen` for `go_local_next(seen)`;
/// the choice follows from `seen` and whether that compare-and-swap wrote.
pub open spec fn global_read_round(seen: u32, cas: Option<Cas>, r: GlobalReadTry) -> bool {
    match go_local_next(seen) {
        None => cas is None && r == global_read_choice_of(seen, false),
        Some(n) => cas matches Some(x) && x.expect == seen && x.new == n && r
            == global_read_choice_of(seen, x.done),
    }
}

/// What a writer's claim did: a compare-and-swap of a free global-mode word for the claimed
/// one, which if it wrote is the claim (nothing to prepare, no reader to wait for);
/// otherwise, having read the word as `seen`, a compare-and-swap of `seen` for
/// `write_claim(seen)` where that claim is possible, which if it wrote is the claim with
/// what `write_claim` reports.
pub open spec fn claim_round(first: Cas, seen: u32, second: Option<Cas>, r: Option<(bool, bool)>) -> bool {
    &&& first.expect == GLOBAL_MASK
    &&& first.new == WRITER_MASK | GLOBAL_MASK
    &&& if first.done {
        r == Some((false, false))
    } else {
        match write_claim(seen) {
            None => second is None && r is None,
            Some((n, must_prep, must_wait)) => second matches Some(x) && x.expect == seen && x.new
                == n && r == if x.done {
                Some((must_prep, must_wait))
            } else {
                None
            },
        }
    }
}

/// What `after_unpark` stores in the park flag: set it while threads are left parked,
/// nothing otherwise.
pub open spec fn flag_after_unpark(have_more_threads: bool) -> Option<bool> {
    if have_more_threads {
        Some(true)
    } else {
        None
    }
}

/// The global word and its companions.
pub struct RawGlobalLock {
    state: AtomicU32,
    parked: AtomicBool,
    spin_lock: AtomicBool,
    local_bias: AtomicU32,
    /// Fills the word out to 64 bytes, so that the lock words lie 64 bytes apart (they are
    /// not aligned to cache lines, so a word may still span two lines).
    padding: [u64; 6],
}

impl RawGlobalLock {
    /// A global word in global mode with nobody in, no parked thread, free spin lock,
    /// and no local bias.
    pub fn new() -> (r: RawGlobalLock) {
        RawGlobalLock {
            state: AtomicU32::new(GLOBAL_MASK),
            parked: AtomicBool::new(false),
            spin_lock: AtomicBool::new(false),
            local_bias: AtomicU32::new(0),
            padding: [0u64; 6],
        }
    }

    /// The atomic that holds the global word.
    pub closed spec fn state_atomic(&self) -> AtomicU32 {
        self.state
    }

    /// The atomic that holds the global word; threads park on its address.
    pub fn state_word(&self) -> (r: &AtomicU32)
        ensures
            *r == self.state_atomic(),
    {
        &self.state
    }

    /// The state word as it is now.
    pub fn load_state(&self) -> u32 {
        self.state.load(Ordering::Relaxed)
    }

    /// Writes `new_val` if the word is `expect`; tells whether it did, with a record of the
    /// compare-and-swap.
    fn cas_state(&self, expect: u32, new_val: u32) -> (r: (bool, Ghost<Cas>))
        ensures
            r.1@ == (Cas { expect, new: new_val, done: r.0 }),
    {
        let done = self.state.compare_exchange(expect, new_val, Ordering::Release, Ordering::Relaxed).is_ok();
        (done, Ghost(Cas { expect, new: new_val, done }))
    }

    /// Notes that a thread is about to park on the global word; returns the value stored in
    /// the park flag.
    pub fn raise_park_flag(&self) -> (r: Ghost<bool>)
        ensures
            r@,
    {
        let v = true;
        self.parked.store(v, Ordering::Release);
        Ghost(v)
    }

    /// The fast global read lock: while the local bias is low, one more reader on a word
    /// without writer. The record holds the compare-and-swap, if one was made.
    pub fn try_fast_read_lock(&self) -> (r: (bool, Ghost<Option<Cas>>))
        ensures
            fast_read_round(r.1@, r.0),
    {
        let (bias, try_it) = plan_bias(self.local_bias.load(Ordering::Relaxed));
        self.local_bias.store(bias, Ordering::Relaxed);
        if try_it {
            let c = self.load_state();
            let (expect, new_val) = plan_fast_read(c);
            let (done, Ghost(x)) = self.cas_state(expect, new_val);
            if done {
                return (true, Ghost(Some(x)));
            }
            return (false, Ghost(Some(x)));
        }
        (false, Ghost(None))
    }

    /// The global half of one read-lock attempt, with the value read and the
    /// compare-and-swap made, if any.
    pub fn try_read_lock_global(&self) -> (r: (GlobalReadTry, Ghost<(u32, Option<Cas>)>))
        ensures
            global_read_round(r.1@.0, r.1@.1, r.0),
    {
        let c = self.load_state();
        match plan_go_local(c) {
            Some(n) => {
                let (went_local, Ghost(x)) = self.cas_state(c, n);
                (global_read_choice(c, went_local), Ghost((c, Some(x))))
            },
            None => (global_read_choice(c, false), Ghost((c, None))),
        }
    }

    /// One writer-lock attempt (`try_write_lock`): `Some((must_prep, must_wait))` once
    /// the lock is claimed, where `must_prep` tells that the local words must be made
    /// global and `must_wait` that global readers are still in; `None` if a writer or a
    /// reader moving the lock to local mode is in the way. Its first compare-and-swap is
    /// `write_claim` of a free global-mode word, by `word::lemma_fast_paths`. The record
    /// holds that compare-and-swap, the value then read, and the second compare-and-swap.
    pub fn try_write_lock(&self) -> (r: (Option<(bool, bool)>, Ghost<(Cas, u32, Option<Cas>)>))
        ensures
            claim_round(r.1@.0, r.1@.1, r.1@.2, r.0),
    {
        self.local_bias.store(0, Ordering::Relaxed);
        let (done, Ghost(first)) = self.cas_state(GLOBAL_MASK, WRITER_MASK | GLOBAL_MASK);
        if done {
            return (Some((false, false)), Ghost((first, 0, None)));
        }
        let c = self.load_state();
        match plan_write_claim(c) {
            Some((n, must_prep, must_wait)) => {
                let (claimed, Ghost(second)) = self.cas_state(c, n);
                if claimed {
                    (Some((must_prep, must_wait)), Ghost((first, c, Some(second))))
                } else {
                    (None, Ghost((first, c, Some(second))))
                }
            },
            None => (None, Ghost((first, c, None))),
        }
    }

    /// Gives the write lock back (the step `WriteRelease` of `protocol`; in that model the
    /// holding writer's compare-and-swap always succeeds, `protocol::lemma_write_release_succeeds`,
    /// which nothing proves of the atomic word itself); tells whether parked threads must be
    /// woken, with the compare-and-swap made.
    pub fn write_unlock(&self) -> (r: (bool, Ghost<Cas>))
        ensures
            r.1@.expect == GLOBAL_MASK | WRITER_MASK,
            r.1@.new == GLOBAL_MASK,
    {
        let (_, x) = self.cas_state(GLOBAL_MASK | WRITER_MASK, GLOBAL_MASK);
        (self.unpark_all().0, x)
    }

    /// Clears the park flag if it was set; tells whether it was, that is, whether parked
    /// threads must be woken. The record holds what was stored in the flag (`None`: nothing).
    pub fn unpark_all(&self) -> (r: (bool, Ghost<Option<bool>>))
        ensures
            r.1@ == if r.0 {
                Some(false)
            } else {
                None
            },
    {
        let has_parked = self.parked.load(Ordering::Acquire);
        if has_parked {
            let v = false;
            self.parked.store(v, Ordering::Release);
            (has_parked, Ghost(Some(v)))
        } else {
            (has_parked, Ghost(None))
        }
    }

    /// After threads were woken: if some are still parked, the park flag is set again.
    /// Returns what was stored in the flag (`None`: nothing).
    pub fn after_unpark(&self, have_more_threads: bool) -> (r: Ghost<Option<bool>>)
        ensures
            r@ == flag_after_unpark(have_more_threads),
    {
        if have_more_threads {
            let Ghost(v) = self.raise_park_flag();
            Ghost(Some(v))
        } else {
            Ghost(None)
        }
    }

    /// The fast global read unlock: from a single reader in global mode to a free word
    /// (`release_next` of that word, by `word::lemma_fast_paths`).
    pub fn try_read_unlock_zero_fast(&self) -> (r: (bool, Ghost<Cas>))
        ensures
            r.1@ == (Cas { expect: GLOBAL_MASK | 1, new: GLOBAL_MASK, done: r.0 }),
    {
        self.cas_state(GLOBAL_MASK | 1, GLOBAL_MASK)
    }

    /// One round of the slow global read unlock: `Some(wake)` once one reader less is
    /// counted, where `wake` tells that a writer has claimed the lock and waits for the
    /// global readers; `None` if the word changed meanwhile.
    pub fn read_unlock_slow_attempt(&self) -> (r: (Option<bool>, Ghost<Cas>))
        ensures
            r.1@.new == release_next(r.1@.expect),
            r.0 == if r.1@.done {
                Some(global_release_wakes_writer(r.1@.expect))
            } else {
                None
            },
    {
        let c = self.load_state();
        let (done, x) = self.cas_state(c, plan_release(c));
        if done {
            (Some(decide_global_release_wakes_writer(c)), x)
        } else {
            (None, x)
        }
    }

    /// One round of ending the move to local mode: clears the preparing flag; `false`
    /// if the word changed meanwhile.
    pub fn read_unlock_prep_local_attempt(&self) -> (r: (bool, Ghost<Cas>))
        ensures
            r.1@.new == clear_prep_next(r.1@.expect),
            r.1@.done == r.0,
    {
        let c = self.load_state();
        self.cas_state(c, plan_clear_prep(c))
    }

    /// The atomic upgrade of the only global reader of a lock in global mode (the step
    /// `Upgrade` of `protocol`): from one global reader to the writer alone.
    pub fn try_single_reader_upgrade(&self) -> (r: (bool, Ghost<Cas>))
        ensures
            r.1@ == (Cas { expect: GLOBAL_MASK | 1, new: GLOBAL_MASK | WRITER_MASK, done: r.0 }),
    {
        let (done, x) = self.cas_state(GLOBAL_MASK | 1, GLOBAL_MASK | WRITER_MASK);
        if done {
            self.local_bias.store(0, Ordering::Relaxed);
            return (true, x);
        }
        (false, x)
    }

    /// Whether the global word counts readers now, with the value read.
    pub fn has_readers(&self) -> (r: (bool, Ghost<u32>))
        ensures
            r.0 == has_readers(r.1@),
    {
        let c = self.load_state();
        (decide_has_readers(c), Ghost(c))
    }

    /// The check made while a reader parks on the global word: it parks only while a
    /// writer or a reader moving the lock to local mode is in; then the park flag is raised.
    /// The record holds the value read and what was stored in the flag (`None`: nothing).
    pub fn read_park_validate(&self) -> (r: (bool, Ghost<(u32, Option<bool>)>))
        ensures
            r.0 == read_park_valid(r.1@.0),
            r.1@.1 == if r.0 {
                Some(true)
            } else {
                None
            },
    {
        let c = self.load_state();
        let valid = decide_read_park_valid(c);
        if valid {
            let Ghost(v) = self.raise_park_flag();
            (valid, Ghost((c, Some(v))))
        } else {
            (valid, Ghost((c, None)))
        }
    }

    /// The check made while a writer parks on the global word: it parks unless the lock
    /// looks free; then the park flag is raised. The record holds the value read and what
    /// was stored in the flag (`None`: nothing).
    pub fn write_park_validate(&self) -> (r: (bool, Ghost<(u32, Option<bool>)>))
        ensures
            r.0 == write_park_valid(r.1@.0),
            r.1@.1 == if r.0 {
                Some(true)
            } else {
                None
            },
    {
        let c = self.load_state();
        let valid = decide_write_park_valid(c);
        if valid {
            let Ghost(v) = self.raise_park_flag();
            (valid, Ghost((c, Some(v))))
        } else {
            (valid, Ghost((c, None)))
        }
    }

    /// One attempt to take the spin lock of the waiting writer's slot; backs off when busy.
    pub fn acquire_slot_attempt(&self, spinwait: &mut SpinWait) -> bool {
        if self.spin_lock.compare_exchange(false, true, Ordering::Release, Ordering::Relaxed).is_ok() {
            true
        } else {
            let _ = spinwait.spin();
            false
        }
    }

    /// Releases the spin lock of the waiting writer's slot.
    pub fn release_slot(&self) {
        self.spin_lock.store(false, Ordering::Release);
    }

    /// One attempt to park the writer that waits for global readers
    /// (park only while global readers are still in).
    pub fn park_attempt(&self, spinwait: &mut SpinWait) -> SlotPark {
        let taken = self.acquire_slot_attempt(spinwait);
        let readers = taken && self.has_readers().0;
        let r = slot_park_decision(taken, readers);
        if matches!(r, SlotPark::Invalid) {
            self.release_slot();
        }
        r
    }
}

/// What to do with one parked thread when the threads parked on the global word are woken.
pub enum FilterDecision {
    Unpark,
    Skip,
    Stop,
}

/// The choice of the threads to wake: the first parked thread always; if it is a writer,
/// no other; otherwise every parked reader, and no writer.
pub struct UnparkFilter {
    first: bool,
    first_writer: bool,
}

impl UnparkFilter {
    /// Whether the next thread is the first of the queue.
    pub closed spec fn at_first(&self) -> bool {
        self.first
    }

    /// Whether the first thread of the queue was a writer.
    pub closed spec fn first_was_writer(&self) -> bool {
        self.first_writer
    }

    /// A filter before the first parked thread.
    pub fn new() -> (r: UnparkFilter)
        ensures
            r.at_first(),
            !r.first_was_writer(),
    {
        UnparkFilter { first: true, first_writer: false }
    }

    /// The decision for the next parked thread, which parked with `token`.
    pub fn decide(&mut self, token: usize) -> (r: FilterDecision)
        ensures
            !final(self).at_first(),
            old(self).at_first() ==> r is Unpark && final(self).first_was_writer() == (token
                == WRITE_PARK_TOKEN),
            !old(self).at_first() ==> final(self).first_was_writer() == old(self).first_was_writer(),
            !old(self).at_first() && old(self).first_was_writer() ==> r is Stop,
            !old(self).at_first() && !old(self).first_was_writer() ==> (if token == READ_PARK_TOKEN {
                r is Unpark
            } else {
                r is Skip
            }),
            (r, final(self).first_was_writer()) == filter_step(
                old(self).at_first(),
                old(self).first_was_writer(),
                token,
            ),
    {
        if self.first {
            self.first = false;
            self.first_writer = token == WRITE_PARK_TOKEN;
            FilterDecision::Unpark
        } else {
            if self.first_writer {
                return FilterDecision::Stop;
            }
            if token == READ_PARK_TOKEN {
                return FilterDecision::Unpark;
            }
            FilterDecision::Skip
        }
    }
}

/// One decision of the filter: for a thread that parked with `token`, whether it is the
/// first of the queue and whether the first was a writer, the decision and whether the
/// first was a writer afterwards.
pub open spec fn filter_step(first: bool, first_writer: bool, token: usize) -> (FilterDecision, bool) {
    if first {
        (FilterDecision::Unpark, token == WRITE_PARK_TOKEN)
    } else if first_writer {
        (FilterDecision::Stop, first_writer)
    } else if token == READ_PARK_TOKEN {
        (FilterDecision::Unpark, first_writer)
    } else {
        (FilterDecision::Skip, first_writer)
    }
}

/// The decisions that a filter makes over a queue of parked threads with `tokens`,
/// scanning from the front until it decides to stop (the stop included).
pub open spec fn filter_scan(first: bool, first_writer: bool, tokens: Seq<usize>) -> Seq<FilterDecision>
    decreases tokens.len(),
{
    if tokens.len() == 0 {
        Seq::empty()
    } else {
        let (d, w) = filter_step(first, first_writer, tokens[0]);
        if d is Stop {
            seq![d]
        } else {
            seq![d] + filter_scan(false, w, tokens.drop_first())
        }
    }
}

/// Behind a reader at the front, the filter looks at every thread and wakes exactly the readers.
proof fn lemma_scan_behind_reader(tokens: Seq<usize>)
    ensures
        filter_scan(false, false, tokens).len() == tokens.len(),
        forall|i: int|
            0 <= i < tokens.len() ==> #[trigger] filter_scan(false, false, tokens)[i] == if tokens[i]
                == READ_PARK_TOKEN {
                FilterDecision::Unpark
            } else {
                FilterDecision::Skip
            },
    decreases tokens.len(),
{
    if tokens.len() > 0 {
        lemma_scan_behind_reader(tokens.drop_first());
        let rest = filter_scan(false, false, tokens.drop_first());
        let d = filter_step(false, false, tokens[0]).0;
        assert(filter_scan(false, false, tokens) == seq![d] + rest);
        assert forall|i: int| 0 <= i < tokens.len() implies #[trigger] filter_scan(
            false,
            false,
            tokens,
        )[i] == if tokens[i] == READ_PARK_TOKEN {
            FilterDecision::Unpark
        } else {
            FilterDecision::Skip
        } by {
            if i > 0 {
                assert(tokens.drop_first()[i - 1] == tokens[i]);
            }
        }
    }
}

/// Which parked threads `force_unpark_all`'s filter wakes, for any queue of at least one:
/// the thread at the front always; if it is a writer, no other (the scan stops at the next
/// thread); if it is a reader, every reader behind it and no writer (writers stay parked),
/// the whole queue being looked at. So at most one writer is woken, and only at the front.
pub proof fn lemma_unpark_choice(tokens: Seq<usize>)
    requires
        tokens.len() >= 1,
    ensures
        filter_scan(true, false, tokens)[0] is Unpark,
        tokens[0] == WRITE_PARK_TOKEN ==> filter_scan(true, false, tokens).len() == if tokens.len()
            == 1 {
            1int
        } else {
            2int
        } && (tokens.len() >= 2 ==> filter_scan(true, false, tokens)[1] is Stop),
        tokens[0] != WRITE_PARK_TOKEN ==> filter_scan(true, false, tokens).len() == tokens.len() && (
        forall|i: int|
            1 <= i < tokens.len() ==> #[trigger] filter_scan(true, false, tokens)[i] == if tokens[i]
                == READ_PARK_TOKEN {
                FilterDecision::Unpark
            } else {
                FilterDecision::Skip
            }),
{
    let rest = tokens.drop_first();
    let w = tokens[0] == WRITE_PARK_TOKEN;
    assert(filter_scan(true, false, tokens) == seq![FilterDecision::Unpark] + filter_scan(
        false,
        w,
        rest,
    ));
    if w {
        if rest.len() > 0 {
            assert(filter_scan(false, true, rest) == seq![FilterDecision::Stop]);
        }
    } else {
        lemma_scan_behind_reader(rest);
        assert forall|i: int| 1 <= i < tokens.len() implies #[trigger] filter_scan(
            true,
            false,
            tokens,
        )[i] == if tokens[i] == READ_PARK_TOKEN {
            FilterDecision::Unpark
        } else {
            FilterDecision::Skip
        } by {
            assert(rest[i - 1] == tokens[i]);
        }
    }
}

} // verus!
