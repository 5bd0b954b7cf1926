//! The locking protocol as a state machine over the lock words.
//!
//! A `Protocol` value is the content of the global word and of the eight local words,
//! together with who holds what: how many threads hold a read lock through each word,
//! whether a reader is moving the lock to local mode, and how far the one writer has got.
//! Each `Step` is one successful atomic update that the lock performs (the new word is
//! computed by the functions of `word`). The laws below hold of every state reached from
//! the initial one: above all, a writer that holds the lock excludes every reader.
//!
//! The state machine is not tied to the atomic words by a proof: Verus gives std's atomics
//! no view of their contents. Its steps count at most `READER_MASK - 1` readers on a word;
//! the lock itself does not check that bound, and a word with that many readers at once
//! would carry its count into the flag bits.
use vstd::prelude::*;
use crate::word::{
    LOCK_COUNT, READER_MASK, WRITER_MASK, PREPARING_TO_GO_LOCAL, GLOBAL_MASK, readers, writer_bit,
    prep_bit, global_bit, global_word_wf, local_word_wf, local_read_next, release_next,
    fast_read_expect, fast_read_new, go_local_next, deglobalize_next, clear_prep_next, write_claim,
    make_global_next, local_release_wakes_writer, global_release_wakes_writer,
};

verus! {

/// How far the writer has got.
pub enum WriterPhase {
    /// No writer owns or claims the lock.
    Idle,
    /// The writer flag is set; the writer now makes the local words global and waits
    /// for the readers that are still in.
    Claimed {
        /// The lock was in local mode: every local word must be made global and drained.
        need_locals: bool,
        /// Global readers were in when the writer claimed the lock.
        wait_global: bool,
        /// Local words made global by the writer.
        sealed: Set<int>,
        /// Local words seen global and without readers.
        drained: Set<int>,
        /// The global word was seen without readers.
        global_drained: bool,
    },
    /// The writer holds the lock.
    Holding,
}

/// The shared state of the lock and who holds it.
pub struct Protocol {
    pub global: u32,
    pub locals: Seq<u32>,
    /// Threads that hold a read lock through the global word.
    pub global_readers: nat,
    /// Threads that hold a read lock through each local word.
    pub local_readers: Seq<nat>,
    /// A reader is moving the lock to local mode.
    pub preparing: bool,
    pub writer: WriterPhase,
}

/// One successful atomic update of the lock words, named after the method of
/// `RawLocalLock` or `RawGlobalLock` whose compare-and-swap performs it.
pub enum Step {
    /// A read lock taken on local word `i`: `try_read_lock_local_fast` or
    /// `try_read_lock_local_slow_attempt` (the new word is `local_read_next`).
    LocalRead(int),
    /// A read lock given back on local word `i`: `read_unlock_fast` or
    /// `try_slow_release_shared_attempt` (`release_next`).
    LocalRelease(int),
    /// A read lock taken on the global word: `try_fast_read_lock` (`fast_read_new`).
    FastGlobalRead,
    /// A read lock given back on the global word: `try_read_unlock_zero_fast` or
    /// `read_unlock_slow_attempt` (`release_next`).
    GlobalRelease,
    /// A reader starts to move the lock to local mode: `try_read_lock_global` (`go_local_next`).
    GoLocal,
    /// That reader takes a read lock on its local word `i`, clearing its global flag:
    /// `read_lock_deglobalize_fast` or `read_lock_deglobalize_slow_attempt` (`deglobalize_next`).
    DeglobalizeOwn(int),
    /// That reader clears the global flag of local word `i` if it holds nothing else:
    /// `try_deglobalize`.
    DeglobalizeNeighbour(int),
    /// That reader is done moving the lock to local mode: `read_unlock_prep_local_attempt`
    /// (`clear_prep_next`).
    ClearPrep,
    /// A writer claims the lock: `try_write_lock` (`write_claim`).
    WriteClaim,
    /// The writer makes local word `i` global: `make_global_attempt` (`make_global_next`).
    MakeGlobal(int),
    /// The writer sees local word `i` without readers: `has_readers` of that word.
    LocalDrained(int),
    /// The writer sees the global word without readers: `has_readers` of the global word.
    GlobalDrained,
    /// The writer has waited for every reader it had to, and holds the lock.
    WriteAcquire,
    /// The writer gives the lock back: `write_unlock`.
    WriteRelease,
    /// The only global reader turns into the writer: `try_single_reader_upgrade`.
    Upgrade,
}

/// The lock as `WideRwLock::new` leaves it: every word global, nobody in.
pub open spec fn init() -> Protocol {
    Protocol {
        global: GLOBAL_MASK,
        locals: Seq::new(8, |i: int| GLOBAL_MASK),
        global_readers: 0,
        local_readers: Seq::new(8, |i: int| 0nat),
        preparing: false,
        writer: WriterPhase::Idle,
    }
}

/// Whether `i` names a local word.
pub open spec fn local_index(i: int) -> bool {
    0 <= i < LOCK_COUNT
}

/// The state after `step`, or `None` where the step cannot happen in `s`.
pub open spec fn next(s: Protocol, step: Step) -> Option<Protocol> {
    match step {
        Step::LocalRead(i) => {
            if local_index(i) && readers(s.locals[i]) < READER_MASK && local_read_next(s.locals[i]) is Some {
                Some(Protocol {
                    locals: s.locals.update(i, local_read_next(s.locals[i])->0),
                    local_readers: s.local_readers.update(i, s.local_readers[i] + 1),
                    ..s
                })
            } else {
                None
            }
        },
        Step::LocalRelease(i) => {
            if local_index(i) && s.local_readers[i] > 0 {
                Some(Protocol {
                    locals: s.locals.update(i, release_next(s.locals[i])),
                    local_readers: s.local_readers.update(i, (s.local_readers[i] - 1) as nat),
                    ..s
                })
            } else {
                None
            }
        },
        Step::FastGlobalRead => {
            if s.global == fast_read_expect(s.global) && readers(s.global) < READER_MASK {
                Some(Protocol {
                    global: fast_read_new(s.global),
                    global_readers: s.global_readers + 1,
                    ..s
                })
            } else {
                None
            }
        },
        Step::GlobalRelease => {
            if s.global_readers > 0 {
                Some(Protocol {
                    global: release_next(s.global),
                    global_readers: (s.global_readers - 1) as nat,
                    ..s
                })
            } else {
                None
            }
        },
        Step::GoLocal => {
            match go_local_next(s.global) {
                Some(n) => Some(Protocol { global: n, preparing: true, ..s }),
                None => None,
            }
        },
        Step::DeglobalizeOwn(i) => {
            if s.preparing && local_index(i) && readers(s.locals[i]) < READER_MASK {
                Some(Protocol {
                    locals: s.locals.update(i, deglobalize_next(s.locals[i])),
                    local_readers: s.local_readers.update(i, s.local_readers[i] + 1),
                    ..s
                })
            } else {
                None
            }
        },
        Step::DeglobalizeNeighbour(i) => {
            if s.preparing && local_index(i) && s.locals[i] == GLOBAL_MASK {
                Some(Protocol { locals: s.locals.update(i, 0), ..s })
            } else {
                None
            }
        },
        Step::ClearPrep => {
            if s.preparing {
                Some(Protocol { global: clear_prep_next(s.global), preparing: false, ..s })
            } else {
                None
            }
        },
        Step::WriteClaim => {
            match (s.writer, write_claim(s.global)) {
                (WriterPhase::Idle, Some((n, need_locals, wait_global))) => Some(
                    Protocol {
                        global: n,
                        writer: WriterPhase::Claimed {
                            need_locals,
                            wait_global,
                            sealed: Set::empty(),
                            drained: Set::empty(),
                            global_drained: false,
                        },
                        ..s
                    },
                ),
                _ => None,
            }
        },
        Step::MakeGlobal(i) => {
            match s.writer {
                WriterPhase::Claimed { need_locals, wait_global, sealed, drained, global_drained } => {
                    if local_index(i) {
                        Some(
                            Protocol {
                                locals: s.locals.update(i, make_global_next(s.locals[i])),
                                writer: WriterPhase::Claimed {
                                    need_locals,
                                    wait_global,
                                    sealed: sealed.insert(i),
                                    drained: if readers(s.locals[i]) == 0 {
                                        drained.insert(i)
                                    } else {
                                        drained
                                    },
                                    global_drained,
                                },
                                ..s
                            },
                        )
                    } else {
                        None
                    }
                },
                _ => None,
            }
        },
        Step::LocalDrained(i) => {
            match s.writer {
                WriterPhase::Claimed { need_locals, wait_global, sealed, drained, global_drained } => {
                    if sealed.contains(i) && readers(s.locals[i]) == 0 {
                        Some(
                            Protocol {
                                writer: WriterPhase::Claimed {
                                    need_locals,
                                    wait_global,
                                    sealed,
                                    drained: drained.insert(i),
                                    global_drained,
                                },
                                ..s
                            },
                        )
                    } else {
                        None
                    }
                },
                _ => None,
            }
        },
        Step::GlobalDrained => {
            match s.writer {
                WriterPhase::Claimed { need_locals, wait_global, sealed, drained, .. } => {
                    if readers(s.global) == 0 {
                        Some(
                            Protocol {
                                writer: WriterPhase::Claimed {
                                    need_locals,
                                    wait_global,
                                    sealed,
                                    drained,
                                    global_drained: true,
                                },
                                ..s
                            },
                        )
                    } else {
                        None
                    }
                },
                _ => None,
            }
        },
        Step::WriteAcquire => {
            match s.writer {
                WriterPhase::Claimed { need_locals, wait_global, drained, global_drained, .. } => {
                    if (need_locals ==> (forall|i: int| local_index(i) ==> drained.contains(i)))
                        && (wait_global ==> global_drained) {
                        Some(Protocol { writer: WriterPhase::Holding, ..s })
                    } else {
                        None
                    }
                },
                _ => None,
            }
        },
        Step::WriteRelease => {
            if s.writer is Holding && s.global == GLOBAL_MASK | WRITER_MASK {
                Some(Protocol { global: GLOBAL_MASK, writer: WriterPhase::Idle, ..s })
            } else {
                None
            }
        },
        Step::Upgrade => {
            if s.global_readers > 0 && s.global == GLOBAL_MASK | 1 {
                Some(
                    Protocol {
                        global: GLOBAL_MASK | WRITER_MASK,
                        global_readers: (s.global_readers - 1) as nat,
                        writer: WriterPhase::Holding,
                        ..s
                    },
                )
            } else {
                None
            }
        },
    }
}

/// The state after a run of steps from `s`, or `None` where one of them cannot happen.
pub open spec fn run(s: Protocol, steps: Seq<Step>) -> Option<Protocol>
    decreases steps.len(),
{
    if steps.len() == 0 {
        Some(s)
    } else {
        match next(s, steps[0]) {
            Some(t) => run(t, steps.drop_first()),
            None => None,
        }
    }
}

/// Every local word is global and has no reader.
pub open spec fn all_locals_sealed_empty(s: Protocol) -> bool {
    forall|i: int| local_index(i) ==> #[trigger] s.locals[i] == GLOBAL_MASK
}

/// The writer has claimed the lock and made local word `i` global.
pub open spec fn sealed_by_writer(s: Protocol, i: int) -> bool {
    s.writer matches WriterPhase::Claimed { sealed, .. } && sealed.contains(i)
}

/// What holds of every state that the lock can reach.
pub open spec fn inv(s: Protocol) -> bool {
    &&& s.locals.len() == LOCK_COUNT
    &&& s.local_readers.len() == LOCK_COUNT
    &&& global_word_wf(s.global)
    &&& readers(s.global) == s.global_readers
    &&& (forall|i: int| local_index(i) ==> local_word_wf(#[trigger] s.locals[i]))
    &&& (forall|i: int| local_index(i) ==> readers(#[trigger] s.locals[i]) == s.local_readers[i])
    &&& s.preparing == prep_bit(s.global)
    &&& (s.writer is Idle) == !writer_bit(s.global)
    &&& !(prep_bit(s.global) && writer_bit(s.global))
    &&& (s.preparing ==> !global_bit(s.global))
    &&& (global_bit(s.global) && !writer_bit(s.global) && !prep_bit(s.global)
        ==> all_locals_sealed_empty(s))
    &&& (forall|i: int|
        local_index(i) && global_bit(#[trigger] s.locals[i]) && readers(s.locals[i]) > 0
            ==> sealed_by_writer(s, i))
    &&& match s.writer {
        WriterPhase::Idle => true,
        WriterPhase::Claimed { need_locals, wait_global, sealed, drained, global_drained } => {
            &&& global_bit(s.global)
            &&& (!need_locals ==> all_locals_sealed_empty(s))
            &&& (forall|i: int| #[trigger]
                sealed.contains(i) ==> local_index(i) && global_bit(s.locals[i]))
            &&& (forall|i: int| #[trigger]
                drained.contains(i) ==> local_index(i) && s.locals[i] == GLOBAL_MASK)
            &&& (global_drained ==> readers(s.global) == 0)
            &&& (!wait_global ==> readers(s.global) == 0)
        },
        WriterPhase::Holding => {
            &&& s.global == GLOBAL_MASK | WRITER_MASK
            &&& all_locals_sealed_empty(s)
        },
    }
}

// ---------------------------------------------------------------------------
// What each update does to the parts of a word

proof fn lemma_word_local_read(c: u32)
    requires
        local_word_wf(c),
        !global_bit(c),
        readers(c) < READER_MASK,
    ensures
        local_read_next(c) == Some((c + 1) as u32),
        local_word_wf((c + 1) as u32),
        readers((c + 1) as u32) == readers(c) + 1,
        !global_bit((c + 1) as u32),
{
    assert(local_word_wf(c) && !global_bit(c) && readers(c) < READER_MASK ==> c + 1 <= u32::MAX
        && local_word_wf(((c + 1) as u32)) && readers(((c + 1) as u32)) == readers(c) + 1 && !global_bit(
        ((c + 1) as u32),
    )) by (bit_vector);
}

proof fn lemma_word_release(c: u32)
    requires
        global_word_wf(c),
        readers(c) > 0,
    ensures
        release_next(c) == (c - 1) as u32,
        global_word_wf(release_next(c)),
        readers(release_next(c)) == readers(c) - 1,
        writer_bit(release_next(c)) == writer_bit(c),
        prep_bit(release_next(c)) == prep_bit(c),
        global_bit(release_next(c)) == global_bit(c),
        local_word_wf(c) ==> local_word_wf(release_next(c)),
{
    assert(global_word_wf(c) && readers(c) > 0 ==> c > 0 && global_word_wf(((c - 1) as u32)) && readers(
        ((c - 1) as u32),
    ) == readers(c) - 1 && writer_bit(((c - 1) as u32)) == writer_bit(c) && prep_bit(((c - 1) as u32))
        == prep_bit(c) && global_bit(((c - 1) as u32)) == global_bit(c) && (local_word_wf(c)
        ==> local_word_wf(((c - 1) as u32)))) by (bit_vector);
}

proof fn lemma_word_fast_read(c: u32)
    requires
        global_word_wf(c),
        c == fast_read_expect(c),
        readers(c) < READER_MASK,
    ensures
        !writer_bit(c),
        fast_read_new(c) == c + 1,
        global_word_wf(fast_read_new(c)),
        readers(fast_read_new(c)) == readers(c) + 1,
        writer_bit(fast_read_new(c)) == writer_bit(c),
        prep_bit(fast_read_new(c)) == prep_bit(c),
        global_bit(fast_read_new(c)) == global_bit(c),
{
    assert(global_word_wf(c) && c == fast_read_expect(c) && readers(c) < READER_MASK
        ==> !writer_bit(c) && fast_read_new(c) == c + 1 && global_word_wf(fast_read_new(c))
        && readers(fast_read_new(c)) == readers(c) + 1 && writer_bit(fast_read_new(c))
        == writer_bit(c) && prep_bit(fast_read_new(c)) == prep_bit(c) && global_bit(
        fast_read_new(c),
    ) == global_bit(c)) by (bit_vector);
}

proof fn lemma_word_go_local(c: u32)
    requires
        global_word_wf(c),
        go_local_next(c) is Some,
    ensures
        !writer_bit(c),
        !prep_bit(c),
        global_word_wf(go_local_next(c)->0),
        readers(go_local_next(c)->0) == readers(c),
        !writer_bit(go_local_next(c)->0),
        prep_bit(go_local_next(c)->0),
        !global_bit(go_local_next(c)->0),
{
    let n = (c & !GLOBAL_MASK) | PREPARING_TO_GO_LOCAL;
    assert(global_word_wf(c) && c & (WRITER_MASK | PREPARING_TO_GO_LOCAL) == 0 ==> !writer_bit(c)
        && !prep_bit(c) && global_word_wf(n) && readers(n) == readers(c) && !writer_bit(n)
        && prep_bit(n) && !global_bit(n)) by (bit_vector)
        requires
            n == (c & !GLOBAL_MASK) | PREPARING_TO_GO_LOCAL,
    ;
}

proof fn lemma_word_deglobalize(c: u32)
    requires
        local_word_wf(c),
        readers(c) < READER_MASK,
    ensures
        local_word_wf(deglobalize_next(c)),
        readers(deglobalize_next(c)) == readers(c) + 1,
        !global_bit(deglobalize_next(c)),
{
    assert(local_word_wf(c) && readers(c) < READER_MASK ==> local_word_wf(deglobalize_next(c))
        && readers(deglobalize_next(c)) == readers(c) + 1 && !global_bit(deglobalize_next(c)))
        by (bit_vector);
}

proof fn lemma_word_clear_prep(c: u32)
    requires
        global_word_wf(c),
    ensures
        global_word_wf(clear_prep_next(c)),
        readers(clear_prep_next(c)) == readers(c),
        writer_bit(clear_prep_next(c)) == writer_bit(c),
        !prep_bit(clear_prep_next(c)),
        global_bit(clear_prep_next(c)) == global_bit(c),
{
    assert(global_word_wf(c) ==> global_word_wf(clear_prep_next(c)) && readers(clear_prep_next(c))
        == readers(c) && writer_bit(clear_prep_next(c)) == writer_bit(c) && !prep_bit(
        clear_prep_next(c),
    ) && global_bit(clear_prep_next(c)) == global_bit(c)) by (bit_vector);
}

proof fn lemma_word_claim(c: u32)
    requires
        global_word_wf(c),
        write_claim(c) is Some,
    ensures
        !writer_bit(c),
        !prep_bit(c),
        ({
            let (n, need_locals, wait_global) = write_claim(c)->0;
            &&& global_word_wf(n)
            &&& readers(n) == readers(c)
            &&& writer_bit(n)
            &&& !prep_bit(n)
            &&& global_bit(n)
            &&& need_locals == !global_bit(c)
            &&& wait_global == (readers(c) != 0)
        }),
{
    let n = c | WRITER_MASK | GLOBAL_MASK;
    assert(global_word_wf(c) && c & (PREPARING_TO_GO_LOCAL | WRITER_MASK) == 0 ==> !writer_bit(c)
        && !prep_bit(c) && global_word_wf(n) && readers(n) == readers(c) && writer_bit(n)
        && !prep_bit(n) && global_bit(n)) by (bit_vector)
        requires
            n == c | WRITER_MASK | GLOBAL_MASK,
    ;
}

proof fn lemma_word_make_global(c: u32)
    requires
        local_word_wf(c),
    ensures
        local_word_wf(make_global_next(c)),
        readers(make_global_next(c)) == readers(c),
        global_bit(make_global_next(c)),
        readers(c) == 0 ==> make_global_next(c) == GLOBAL_MASK,
{
    assert(local_word_wf(c) ==> local_word_wf(make_global_next(c)) && readers(make_global_next(c))
        == readers(c) && global_bit(make_global_next(c)) && (readers(c) == 0 ==> make_global_next(c)
        == GLOBAL_MASK)) by (bit_vector);
}

proof fn lemma_word_sealed_empty(c: u32)
    requires
        local_word_wf(c),
        global_bit(c),
        readers(c) == 0,
    ensures
        c == GLOBAL_MASK,
{
    assert(local_word_wf(c) && global_bit(c) && readers(c) == 0 ==> c == GLOBAL_MASK)
        by (bit_vector);
}

proof fn lemma_word_constants()
    ensures
        local_word_wf(GLOBAL_MASK),
        global_word_wf(GLOBAL_MASK),
        readers(GLOBAL_MASK) == 0,
        global_bit(GLOBAL_MASK),
        !writer_bit(GLOBAL_MASK),
        !prep_bit(GLOBAL_MASK),
        local_word_wf(0),
        readers(0) == 0,
        global_word_wf(GLOBAL_MASK | WRITER_MASK),
        readers(GLOBAL_MASK | WRITER_MASK) == 0,
        global_bit(GLOBAL_MASK | WRITER_MASK),
        writer_bit(GLOBAL_MASK | WRITER_MASK),
        !prep_bit(GLOBAL_MASK | WRITER_MASK),
        global_word_wf(GLOBAL_MASK | 1),
        readers(GLOBAL_MASK | 1) == 1,
        global_bit(GLOBAL_MASK | 1),
        !writer_bit(GLOBAL_MASK | 1),
        !prep_bit(GLOBAL_MASK | 1),
        local_release_wakes_writer(GLOBAL_MASK | 1),
{
    assert(local_word_wf(GLOBAL_MASK) && global_word_wf(GLOBAL_MASK) && readers(GLOBAL_MASK) == 0
        && global_bit(GLOBAL_MASK) && !writer_bit(GLOBAL_MASK) && !prep_bit(GLOBAL_MASK)
        && local_word_wf(0) && readers(0) == 0) by (bit_vector);
    assert(global_word_wf(GLOBAL_MASK | WRITER_MASK) && readers(GLOBAL_MASK | WRITER_MASK) == 0
        && global_bit(GLOBAL_MASK | WRITER_MASK) && writer_bit(GLOBAL_MASK | WRITER_MASK)
        && !prep_bit(GLOBAL_MASK | WRITER_MASK)) by (bit_vector);
    assert(global_word_wf(GLOBAL_MASK | 1) && readers(GLOBAL_MASK | 1) == 1 && global_bit(
        GLOBAL_MASK | 1,
    ) && !writer_bit(GLOBAL_MASK | 1) && !prep_bit(GLOBAL_MASK | 1)) by (bit_vector);
}

/// The global word of the writer that holds the lock: writer and global flags, nothing else.
proof fn lemma_word_writer_holds(c: u32)
    requires
        global_word_wf(c),
        writer_bit(c),
        global_bit(c),
        !prep_bit(c),
        readers(c) == 0,
    ensures
        c == GLOBAL_MASK | WRITER_MASK,
{
    assert(global_word_wf(c) && writer_bit(c) && global_bit(c) && !prep_bit(c) && readers(c) == 0
        ==> c == GLOBAL_MASK | WRITER_MASK) by (bit_vector);
}

/// A global word that holds exactly one reader in global mode.
proof fn lemma_word_single_reader(c: u32)
    requires
        global_word_wf(c),
        global_bit(c),
        !writer_bit(c),
        !prep_bit(c),
        readers(c) == 1,
    ensures
        c == GLOBAL_MASK | 1,
{
    assert(global_word_wf(c) && global_bit(c) && !writer_bit(c) && !prep_bit(c) && readers(c) == 1
        ==> c == GLOBAL_MASK | 1) by (bit_vector);
}

// ---------------------------------------------------------------------------
// The invariant holds initially and is kept by every step

/// The lock as created satisfies the invariant.
pub proof fn lemma_init_inv()
    ensures
        inv(init()),
{
    lemma_word_constants();
    let s = init();
    assert forall|i: int| local_index(i) implies local_word_wf(#[trigger] s.locals[i])
        && readers(s.locals[i]) == s.local_readers[i] by {}
}

proof fn lemma_keeps_local_read(s: Protocol, i: int)
    requires
        inv(s),
        next(s, Step::LocalRead(i)) is Some,
    ensures
        inv(next(s, Step::LocalRead(i))->0),
{
    let t = next(s, Step::LocalRead(i))->0;
    let c = s.locals[i];
    assert(local_word_wf(c));
    assert(!global_bit(c));
    lemma_word_local_read(c);
    lemma_word_constants();
    assert(c != GLOBAL_MASK);
    assert forall|j: int| local_index(j) implies local_word_wf(#[trigger] t.locals[j])
        && readers(t.locals[j]) == t.local_readers[j] by {
        if j != i {
            assert(t.locals[j] == s.locals[j]);
        }
    }
    match s.writer {
        WriterPhase::Idle => {},
        WriterPhase::Claimed { sealed, drained, .. } => {
            assert(!sealed.contains(i));
            assert(!drained.contains(i));
        },
        WriterPhase::Holding => {},
    }
}

proof fn lemma_keeps_local_release(s: Protocol, i: int)
    requires
        inv(s),
        next(s, Step::LocalRelease(i)) is Some,
    ensures
        inv(next(s, Step::LocalRelease(i))->0),
{
    let t = next(s, Step::LocalRelease(i))->0;
    let c = s.locals[i];
    assert(local_word_wf(c) ==> global_word_wf(c)) by (bit_vector);
    lemma_word_release(c);
    lemma_word_constants();
    assert(c != GLOBAL_MASK);
    assert forall|j: int| local_index(j) implies local_word_wf(#[trigger] t.locals[j])
        && readers(t.locals[j]) == t.local_readers[j] by {
        if j != i {
            assert(t.locals[j] == s.locals[j]);
        }
    }
    match s.writer {
        WriterPhase::Idle => {},
        WriterPhase::Claimed { sealed, drained, .. } => {
            assert(!drained.contains(i));
        },
        WriterPhase::Holding => {},
    }
}

proof fn lemma_keeps_global_update(s: Protocol, step: Step)
    requires
        inv(s),
        step is FastGlobalRead || step is GlobalRelease || step is GoLocal || step is ClearPrep,
        next(s, step) is Some,
    ensures
        inv(next(s, step)->0),
{
    let t = next(s, step)->0;
    let c = s.global;
    lemma_word_constants();
    match step {
        Step::FastGlobalRead => {
            lemma_word_fast_read(c);
        },
        Step::GlobalRelease => {
            lemma_word_release(c);
        },
        Step::GoLocal => {
            lemma_word_go_local(c);
        },
        _ => {
            lemma_word_clear_prep(c);
        },
    }
    assert(t.locals == s.locals);
    assert forall|j: int| local_index(j) implies local_word_wf(#[trigger] t.locals[j])
        && readers(t.locals[j]) == t.local_readers[j] by {}
}

proof fn lemma_keeps_deglobalize(s: Protocol, step: Step)
    requires
        inv(s),
        step is DeglobalizeOwn || step is DeglobalizeNeighbour,
        next(s, step) is Some,
    ensures
        inv(next(s, step)->0),
{
    let t = next(s, step)->0;
    lemma_word_constants();
    let i = match step {
        Step::DeglobalizeOwn(i) => i,
        Step::DeglobalizeNeighbour(i) => i,
        _ => 0,
    };
    if step is DeglobalizeOwn {
        lemma_word_deglobalize(s.locals[i]);
    }
    assert(s.writer is Idle);
    assert forall|j: int| local_index(j) implies local_word_wf(#[trigger] t.locals[j])
        && readers(t.locals[j]) == t.local_readers[j] by {
        if j != i {
            assert(t.locals[j] == s.locals[j]);
        }
    }
}

proof fn lemma_keeps_writer(s: Protocol, step: Step)
    requires
        inv(s),
        step is WriteClaim || step is MakeGlobal || step is LocalDrained || step is GlobalDrained
            || step is WriteAcquire,
        next(s, step) is Some,
    ensures
        inv(next(s, step)->0),
{
    let t = next(s, step)->0;
    lemma_word_constants();
    match step {
        Step::WriteClaim => {
            lemma_word_claim(s.global);
            assert(t.locals == s.locals);
            assert forall|j: int| local_index(j) implies local_word_wf(#[trigger] t.locals[j])
                && readers(t.locals[j]) == t.local_readers[j] by {}
        },
        Step::MakeGlobal(i) => {
            let c = s.locals[i];
            lemma_word_make_global(c);
            assert forall|j: int| local_index(j) implies local_word_wf(#[trigger] t.locals[j])
                && readers(t.locals[j]) == t.local_readers[j] by {
                if j != i {
                    assert(t.locals[j] == s.locals[j]);
                }
            }
            match (s.writer, t.writer) {
                (
                    WriterPhase::Claimed { need_locals, sealed, drained, .. },
                    WriterPhase::Claimed { sealed: sealed2, drained: drained2, .. },
                ) => {
                    if !need_locals {
                        assert(c == GLOBAL_MASK);
                        assert(make_global_next(GLOBAL_MASK) == GLOBAL_MASK) by (bit_vector);
                        assert forall|j: int| local_index(j) implies #[trigger] t.locals[j]
                            == GLOBAL_MASK by {
                            if j != i {
                                assert(t.locals[j] == s.locals[j]);
                            }
                        }
                    }
                    assert forall|j: int| #[trigger] sealed2.contains(j) implies local_index(j)
                        && global_bit(t.locals[j]) by {
                        if j != i {
                            assert(t.locals[j] == s.locals[j]);
                        }
                    }
                    assert forall|j: int| #[trigger] drained2.contains(j) implies local_index(j)
                        && t.locals[j] == GLOBAL_MASK by {
                        if j != i {
                            assert(drained.contains(j));
                            assert(t.locals[j] == s.locals[j]);
                        } else if !drained.contains(j) {
                            assert(readers(c) == 0);
                        }
                    }
                },
                _ => {},
            }
        },
        Step::LocalDrained(i) => {
            assert(t.locals == s.locals);
            assert forall|j: int| local_index(j) implies local_word_wf(#[trigger] t.locals[j])
                && readers(t.locals[j]) == t.local_readers[j] by {}
            match (s.writer, t.writer) {
                (
                    WriterPhase::Claimed { sealed, drained, .. },
                    WriterPhase::Claimed { drained: drained2, .. },
                ) => {
                    assert(global_bit(s.locals[i]));
                    lemma_word_sealed_empty(s.locals[i]);
                    assert forall|j: int| #[trigger] drained2.contains(j) implies local_index(j)
                        && t.locals[j] == GLOBAL_MASK by {
                        if j != i {
                            assert(drained.contains(j));
                        }
                    }
                },
                _ => {},
            }
        },
        Step::GlobalDrained => {
            assert(t.locals == s.locals);
            assert forall|j: int| local_index(j) implies local_word_wf(#[trigger] t.locals[j])
                && readers(t.locals[j]) == t.local_readers[j] by {}
        },
        _ => {
            assert(t.locals == s.locals);
            assert forall|j: int| local_index(j) implies local_word_wf(#[trigger] t.locals[j])
                && readers(t.locals[j]) == t.local_readers[j] by {}
            match s.writer {
                WriterPhase::Claimed { need_locals, wait_global, drained, global_drained, .. } => {
                    assert(readers(s.global) == 0);
                    assert(!prep_bit(s.global));
                    lemma_word_writer_holds(s.global);
                    if need_locals {
                        assert forall|j: int| local_index(j) implies #[trigger] t.locals[j]
                            == GLOBAL_MASK by {
                            assert(drained.contains(j));
                        }
                    }
                },
                _ => {},
            }
        },
    }
}

proof fn lemma_keeps_release_upgrade(s: Protocol, step: Step)
    requires
        inv(s),
        step is WriteRelease || step is Upgrade,
        next(s, step) is Some,
    ensures
        inv(next(s, step)->0),
{
    let t = next(s, step)->0;
    lemma_word_constants();
    assert(t.locals == s.locals);
    assert forall|j: int| local_index(j) implies local_word_wf(#[trigger] t.locals[j])
        && readers(t.locals[j]) == t.local_readers[j] by {}
    if step is Upgrade {
        assert(s.writer is Idle);
        assert(all_locals_sealed_empty(s));
    }
}

/// Every step keeps the invariant.
pub proof fn lemma_step_keeps_inv(s: Protocol, step: Step)
    requires
        inv(s),
        next(s, step) is Some,
    ensures
        inv(next(s, step)->0),
{
    match step {
        Step::LocalRead(i) => lemma_keeps_local_read(s, i),
        Step::LocalRelease(i) => lemma_keeps_local_release(s, i),
        Step::FastGlobalRead => lemma_keeps_global_update(s, step),
        Step::GlobalRelease => lemma_keeps_global_update(s, step),
        Step::GoLocal => lemma_keeps_global_update(s, step),
        Step::ClearPrep => lemma_keeps_global_update(s, step),
        Step::DeglobalizeOwn(_) => lemma_keeps_deglobalize(s, step),
        Step::DeglobalizeNeighbour(_) => lemma_keeps_deglobalize(s, step),
        Step::WriteRelease => lemma_keeps_release_upgrade(s, step),
        Step::Upgrade => lemma_keeps_release_upgrade(s, step),
        _ => lemma_keeps_writer(s, step),
    }
}

// ---------------------------------------------------------------------------
// Laws

/// Every run of steps keeps the invariant.
pub proof fn lemma_run_keeps_inv(s: Protocol, steps: Seq<Step>)
    requires
        inv(s),
        run(s, steps) is Some,
    ensures
        inv(run(s, steps)->0),
    decreases steps.len(),
{
    if steps.len() > 0 {
        lemma_step_keeps_inv(s, steps[0]);
        lemma_run_keeps_inv(next(s, steps[0])->0, steps.drop_first());
    }
}

/// Every state that the lock reaches from its creation satisfies the invariant.
pub proof fn lemma_reachable_inv(steps: Seq<Step>)
    requires
        run(init(), steps) is Some,
    ensures
        inv(run(init(), steps)->0),
{
    lemma_init_inv();
    lemma_run_keeps_inv(init(), steps);
}

/// A writer that holds the lock excludes every reader: no thread holds a read lock,
/// neither through the global word nor through any local word.
pub proof fn lemma_writer_excludes_readers(s: Protocol)
    requires
        inv(s),
        s.writer is Holding,
    ensures
        s.global_readers == 0,
        forall|i: int| local_index(i) ==> #[trigger] s.local_readers[i] == 0,
{
    lemma_word_constants();
    assert forall|i: int| local_index(i) implies #[trigger] s.local_readers[i] == 0 by {
        assert(s.locals[i] == GLOBAL_MASK);
    }
}

/// In every state reached from the creation of the lock, a writer that holds it
/// excludes every reader.
pub proof fn lemma_mutual_exclusion(steps: Seq<Step>)
    requires
        run(init(), steps) is Some,
        run(init(), steps)->0.writer is Holding,
    ensures
        run(init(), steps)->0.global_readers == 0,
        forall|i: int| local_index(i) ==> #[trigger] run(init(), steps)->0.local_readers[i] == 0,
{
    lemma_reachable_inv(steps);
    lemma_writer_excludes_readers(run(init(), steps)->0);
}

/// There is at most one writer: the writer flag is set exactly while a writer claims or
/// holds the lock, and no second writer can claim it or upgrade into it meanwhile.
pub proof fn lemma_single_writer(s: Protocol)
    requires
        inv(s),
    ensures
        (s.writer is Idle) == !writer_bit(s.global),
        !(s.writer is Idle) ==> next(s, Step::WriteClaim) is None,
        !(s.writer is Idle) ==> next(s, Step::Upgrade) is None,
{
    lemma_word_constants();
}

/// Writer preference: once a writer has claimed the lock, no reader can take a global
/// read lock or move the lock to local mode, and no reader can take a local read lock
/// on a word that the writer has made global (or on any word, once the writer holds).
pub proof fn lemma_writer_holds_back_readers(s: Protocol, i: int)
    requires
        inv(s),
        !(s.writer is Idle),
    ensures
        next(s, Step::FastGlobalRead) is None,
        next(s, Step::GoLocal) is None,
        next(s, Step::ClearPrep) is None,
        s.writer is Holding ==> next(s, Step::LocalRead(i)) is None,
        (s.writer matches WriterPhase::Claimed { need_locals, sealed, .. } && (!need_locals
            || sealed.contains(i))) ==> next(s, Step::LocalRead(i)) is None,
{
    lemma_word_constants();
    assert(writer_bit(s.global));
    let g = s.global;
    assert(writer_bit(g) ==> g != fast_read_expect(g) && g & (WRITER_MASK | PREPARING_TO_GO_LOCAL)
        != 0) by (bit_vector);
    if local_index(i) {
        let c = s.locals[i];
        match s.writer {
            WriterPhase::Holding => {
                assert(c == GLOBAL_MASK);
            },
            WriterPhase::Claimed { need_locals, sealed, .. } => {
                if !need_locals {
                    assert(c == GLOBAL_MASK);
                }
                if sealed.contains(i) {
                    assert(global_bit(c));
                }
            },
            _ => {},
        }
    }
}

/// The writer that holds the lock can always give it back: the global word is exactly
/// the writer and global flags, so `write_unlock`'s compare-and-swap succeeds, and it
/// leaves the lock free in global mode.
pub proof fn lemma_write_release_succeeds(s: Protocol)
    requires
        inv(s),
        s.writer is Holding,
    ensures
        s.global == GLOBAL_MASK | WRITER_MASK,
        next(s, Step::WriteRelease) is Some,
        next(s, Step::WriteRelease)->0.global == GLOBAL_MASK,
        next(s, Step::WriteRelease)->0.writer is Idle,
{
}

/// The only reader of a lock in global mode, with no writer and no reader moving the
/// lock to local mode, upgrades atomically: the upgrade step is possible, and after it
/// the writer holds the lock with no reader left.
pub proof fn lemma_single_reader_upgrades_atomically(s: Protocol)
    requires
        inv(s),
        s.global_readers == 1,
        global_bit(s.global),
        !writer_bit(s.global),
        !prep_bit(s.global),
    ensures
        s.global == GLOBAL_MASK | 1,
        next(s, Step::Upgrade) is Some,
        next(s, Step::Upgrade)->0.writer is Holding,
        next(s, Step::Upgrade)->0.global_readers == 0,
        forall|i: int| local_index(i) ==> #[trigger] next(s, Step::Upgrade)->0.local_readers[i] == 0,
{
    lemma_word_single_reader(s.global);
    lemma_step_keeps_inv(s, Step::Upgrade);
    lemma_writer_excludes_readers(next(s, Step::Upgrade)->0);
}

/// The upgrade step happens only for a global reader that is the only reader of a lock
/// in global mode with no writer.
pub proof fn lemma_upgrade_needs_single_reader(s: Protocol)
    requires
        inv(s),
        next(s, Step::Upgrade) is Some,
    ensures
        s.global_readers == 1,
        s.writer is Idle,
        forall|i: int| local_index(i) ==> #[trigger] s.local_readers[i] == 0,
{
    lemma_word_constants();
    assert forall|i: int| local_index(i) implies #[trigger] s.local_readers[i] == 0 by {
        assert(s.locals[i] == GLOBAL_MASK);
    }
}

/// A global reader that leaves wakes the writer waiting for global readers exactly when
/// a writer has claimed the lock.
pub proof fn lemma_global_release_wakes_claimed_writer(s: Protocol)
    requires
        inv(s),
    ensures
        global_release_wakes_writer(s.global) == !(s.writer is Idle),
{
}

/// The last reader to leave a local word that the writer made global wakes the writer.
pub proof fn lemma_last_local_reader_wakes_writer(s: Protocol, i: int)
    requires
        inv(s),
        s.writer matches WriterPhase::Claimed { sealed, .. } && sealed.contains(i),
        s.local_readers[i] == 1,
    ensures
        local_release_wakes_writer(s.locals[i]),
        next(s, Step::LocalRelease(i))->0.locals[i] == GLOBAL_MASK,
{
    let c = s.locals[i];
    assert(local_word_wf(c) && global_bit(c) && readers(c) == 1 ==> c == GLOBAL_MASK | 1)
        by (bit_vector);
    lemma_word_constants();
    assert(release_next(GLOBAL_MASK | 1) == GLOBAL_MASK) by (bit_vector);
}

/// A reader leaving a local word asks to wake a writer only when a writer has claimed the
/// lock and made that word global: with no such writer the wake-up is never asked for.
pub proof fn lemma_local_wake_only_for_sealing_writer(s: Protocol, i: int)
    requires
        inv(s),
        local_index(i),
        s.local_readers[i] > 0,
        local_release_wakes_writer(s.locals[i]),
    ensures
        sealed_by_writer(s, i),
{
    let c = s.locals[i];
    assert(local_release_wakes_writer(c) ==> global_bit(c) && readers(c) == 1) by (bit_vector);
}

} // verus!
