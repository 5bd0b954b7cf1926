//! The wide read-write lock: one global word and eight local words, and the operations
//! on it (read, write, unlock, upgrade, downgrade).
//!
//! An operation is a `LockOp` that the caller drives: each call of `WideRwLock::step`
//! makes one attempt at the next atomic update and says what the caller must do next:
//! go on, give the processor a spin hint, park the thread or wake parked threads (which
//! the library leaves to its caller), or take the result. Where an update is retried until
//! it succeeds, the stage stays the same.
use vstd::prelude::*;
use crate::global::{
    RawGlobalLock, GlobalReadTry, UnparkFilter, fast_read_round, global_read_round, claim_round,
    flag_after_unpark,
};
use crate::local::{RawLocalLock, SlotPark, local_read_round};
use crate::word::{
    Cas, GLOBAL_READER, LOCK_COUNT, GLOBAL_MASK, WRITER_MASK, reader_index,
    neighbour, neighbour_of, deglobalize_next, clear_prep_next, make_global_next, has_readers,
    release_next, local_release_wakes_writer, global_release_wakes_writer, readers,
    writer_bit, prep_bit, global_bit, fast_read_expect, READER_MASK,
};
use std::sync::atomic::AtomicU32;
use parking_lot_core::SpinWait;

verus! {

/// A read lock, held through local word `reader_id` (below `LOCK_COUNT`) or through the
/// global word (`GLOBAL_READER`).
pub struct ReadGuard {
    reader_id: usize,
}

/// The write lock.
pub struct WriteGuard {
    token: (),
}

/// The result of upgrading a read lock: whether no other writer could come in between.
pub enum UpgradeResult {
    AtomicUpgrade(WriteGuard),
    NonAtomicUpgrade(WriteGuard),
}

/// The result of an operation.
pub enum Outcome {
    Read(ReadGuard),
    Write(WriteGuard),
    Unlocked,
    Upgraded(UpgradeResult),
}

/// What the caller of `step` must do next.
pub enum Action {
    /// Call `step` again.
    Continue,
    /// Give the processor a spin-loop hint, then call `step` again.
    SpinHint,
    /// Park on the global word with `READ_PARK_TOKEN`, validating with
    /// `read_park_validate`; then call `resume` with whether the thread was unparked.
    ParkReader,
    /// Park on the global word with `WRITE_PARK_TOKEN`, validating with
    /// `write_park_validate`; then call `resume` with whether the thread was unparked.
    ParkWriter,
    /// Park the thread in the slot of local word `i` (see `park_local_attempt`); then
    /// call `resume` with whether it parked.
    ParkLocal(usize),
    /// Park the thread in the slot of the writer that waits for global readers (see
    /// `park_priv_writer_attempt`); then call `resume` with whether it parked.
    ParkPrivWriter,
    /// Wake the threads parked on the global word, choosing them with an `UnparkFilter`
    /// and reporting back through `after_unpark`.
    UnparkAll,
    /// Wake the thread parked in the slot of local word `i`.
    UnparkLocal(usize),
    /// Wake the writer parked in the slot of the global word.
    UnparkPrivWriter,
    /// The operation is over.
    Done(Outcome),
}

/// The kinds of operations.
#[derive(Clone, Copy, PartialEq, Eq, Structural)]
pub enum OpKind {
    Read,
    Write,
    ReadUnlock,
    WriteUnlock,
    Upgrade,
    Downgrade,
}

/// Where a writer stands while it waits for readers to leave a word.
#[derive(Clone, Copy)]
pub enum WaitPhase {
    /// The first look at the word.
    First,
    /// About to look again (after a spin hint unless the thread was just unparked).
    Spin,
    /// Looking again; park if readers are still in.
    Check,
}

/// The stages of the operations.
#[derive(Clone, Copy)]
pub enum Stage {
    /// A read lock on the thread's local word, from a free word (`try_read_lock_local_fast`).
    ReadLocalFast,
    /// A read lock on the thread's local word, counting one more reader unless the word is
    /// global (`try_read_lock_local_slow_attempt`).
    ReadLocalSlow,
    /// A read lock on the global word while the local bias is low (`try_fast_read_lock`).
    ReadFastGlobal,
    /// A read attempt on the global word (`try_read_lock_global`); `slow` once the reader
    /// has entered the loop that parks.
    ReadTryGlobal { slow: bool },
    /// The local word, tried after the global word was seen in local mode, from a free word.
    ReadTryLocalFast { slow: bool },
    /// The local word, tried after the global word was seen in local mode, one more reader.
    ReadTryLocalSlow { slow: bool },
    /// Top of the loop in which a blocked reader spins or parks, then tries again.
    ReadSlowTop,
    /// The reader moving the lock to local mode takes its own word, from global and free
    /// (`read_lock_deglobalize_fast`).
    DeglobalizeFast,
    /// The same, from any word (`read_lock_deglobalize_slow_attempt`).
    DeglobalizeSlow,
    /// The reader clears the global flag of the two next local words if they are free
    /// (`try_deglobalize`).
    DeglobalizeNeighbours,
    /// The reader ends the move to local mode (`read_unlock_prep_local_attempt`).
    ClearPrep,
    /// A writer-lock attempt (`try_write_lock`); `slow` once the writer has entered the
    /// loop that parks.
    WriteTry { slow: bool },
    /// Top of the loop in which a blocked writer spins or parks, then tries again.
    WriteSlowTop,
    /// The writer makes local word `next` global (`make_global_attempt`); `remaining` is the
    /// last word seen with readers, `recheck` whether global readers must be waited for.
    MakeGlobal { next: usize, remaining: Option<usize>, recheck: bool },
    /// The writer waits for the readers of local word `pos`, then of the words below it.
    WaitLocal { pos: usize, phase: WaitPhase, recheck: bool },
    /// The writer waits for the readers of the global word.
    WaitGlobal { phase: WaitPhase },
    /// A local read lock given back, from one reader (`read_unlock_fast`).
    UnlockLocalFast,
    /// A local read lock given back, from any count (`try_slow_release_shared_attempt`).
    UnlockLocalSlow,
    /// A global read lock given back, from one reader (`try_read_unlock_zero_fast`).
    UnlockGlobalFast,
    /// A global read lock given back, from any count (`read_unlock_slow_attempt`).
    UnlockGlobalSlow,
    /// The atomic upgrade of a single global reader (`try_single_reader_upgrade`).
    UpgradeGlobal,
    /// The write lock given back (`write_unlock`).
    WriteUnlock,
    /// Done: a read lock through word `reader_id`.
    FinishedRead { reader_id: usize },
    /// Done: the write lock.
    FinishedWrite,
    /// Done: a lock given back.
    FinishedUnlock,
    /// Done: an upgrade, atomic or not.
    FinishedUpgrade { atomic: bool },
}

/// An operation on the lock in progress.
pub struct LockOp {
    kind: OpKind,
    reader_id: usize,
    stage: Stage,
    parked: bool,
}

/// The lock words.
pub struct WideRwLock {
    global: RawGlobalLock,
    locals: [RawLocalLock; 8],
}

impl ReadGuard {
    /// The word is a local word or the global word.
    #[verifier::type_invariant]
    spec fn reader_id_in_range(self) -> bool {
        self.reader_id <= GLOBAL_READER
    }

    /// The word through which the read lock is held.
    pub closed spec fn id(&self) -> nat {
        self.reader_id as nat
    }

    /// The word through which the read lock is held.
    pub fn reader_id(&self) -> (r: usize)
        ensures
            r == self.id(),
            r <= GLOBAL_READER,
    {
        proof {
            use_type_invariant(self);
        }
        self.reader_id
    }

    /// Starts upgrading the read lock to the write lock. A read lock held through a local
    /// word is given back, then the write lock taken: the upgrade is not atomic. A global
    /// read lock is turned into the write lock at once if its holder is the only reader;
    /// otherwise it is given back and the write lock taken.
    pub fn upgrade_to_write_lock(self) -> (op: LockOp)
        ensures
            op.wf(),
            op.kind() == OpKind::Upgrade,
            op.reader() == self.id(),
            op.stage() == if self.id() < LOCK_COUNT {
                Stage::UnlockLocalFast
            } else {
                Stage::UpgradeGlobal
            },
            !op.was_parked(),
    {
        proof {
            use_type_invariant(&self);
        }
        let id = self.reader_id;
        let stage = if id < LOCK_COUNT as usize {
            Stage::UnlockLocalFast
        } else {
            Stage::UpgradeGlobal
        };
        LockOp { kind: OpKind::Upgrade, reader_id: id, stage, parked: false }
    }

    /// Starts giving the read lock back.
    pub fn unlock(self) -> (op: LockOp)
        ensures
            op.wf(),
            op.kind() == OpKind::ReadUnlock,
            op.reader() == self.id(),
            op.stage() == if self.id() < LOCK_COUNT {
                Stage::UnlockLocalFast
            } else {
                Stage::UnlockGlobalFast
            },
            !op.was_parked(),
    {
        proof {
            use_type_invariant(&self);
        }
        let id = self.reader_id;
        let stage = if id < LOCK_COUNT as usize {
            Stage::UnlockLocalFast
        } else {
            Stage::UnlockGlobalFast
        };
        LockOp { kind: OpKind::ReadUnlock, reader_id: id, stage, parked: false }
    }
}

impl WriteGuard {
    /// Starts downgrading the write lock to a read lock for the thread `thread_id`: the
    /// write lock is given back, then a read lock taken, so other writers may come in between.
    pub fn downgrade_to_read_lock(self, thread_id: u64) -> (op: LockOp)
        ensures
            op.wf(),
            op.kind() == OpKind::Downgrade,
            op.reader() == crate::word::reader_index_of(thread_id),
            op.stage() == Stage::WriteUnlock,
            !op.was_parked(),
    {
        LockOp {
            kind: OpKind::Downgrade,
            reader_id: reader_index(thread_id),
            stage: Stage::WriteUnlock,
            parked: false,
        }
    }

    /// Starts giving the write lock back.
    pub fn unlock(self) -> (op: LockOp)
        ensures
            op.wf(),
            op.kind() == OpKind::WriteUnlock,
            op.stage() == Stage::WriteUnlock,
            !op.was_parked(),
    {
        LockOp { kind: OpKind::WriteUnlock, reader_id: GLOBAL_READER, stage: Stage::WriteUnlock, parked: false }
    }
}

impl UpgradeResult {
    /// Whether the upgrade was atomic.
    pub fn atomic(&self) -> (r: bool)
        ensures
            r == (self is AtomicUpgrade),
    {
        match self {
            UpgradeResult::AtomicUpgrade(_) => true,
            UpgradeResult::NonAtomicUpgrade(_) => false,
        }
    }

    /// The write lock, however it was obtained.
    pub fn into_guard(self) -> (r: WriteGuard) {
        match self {
            UpgradeResult::AtomicUpgrade(w) => w,
            UpgradeResult::NonAtomicUpgrade(w) => w,
        }
    }
}

/// Whether a stage may occur in an operation of kind `kind` for reader `reader_id`.
pub open spec fn stage_fits(kind: OpKind, reader_id: nat, stage: Stage) -> bool {
    let local = reader_id < LOCK_COUNT;
    let reading = kind == OpKind::Read || kind == OpKind::Downgrade;
    let writing = kind == OpKind::Write || kind == OpKind::Upgrade;
    match stage {
        Stage::ReadLocalFast | Stage::ReadLocalSlow | Stage::ReadFastGlobal | Stage::ReadSlowTop
        | Stage::ReadTryGlobal { .. } | Stage::ReadTryLocalFast { .. } | Stage::ReadTryLocalSlow { .. }
        | Stage::DeglobalizeFast | Stage::DeglobalizeSlow | Stage::DeglobalizeNeighbours
        | Stage::ClearPrep => reading && local,
        Stage::WriteTry { .. } | Stage::WriteSlowTop | Stage::WaitGlobal { .. } => writing,
        Stage::MakeGlobal { next, remaining, .. } => writing && next < LOCK_COUNT && (
        remaining matches Some(p) ==> p < next),
        Stage::WaitLocal { pos, .. } => writing && pos < LOCK_COUNT,
        Stage::UnlockLocalFast | Stage::UnlockLocalSlow => (kind == OpKind::ReadUnlock || kind
            == OpKind::Upgrade) && local,
        Stage::UnlockGlobalFast | Stage::UnlockGlobalSlow => (kind == OpKind::ReadUnlock || kind
            == OpKind::Upgrade) && reader_id == GLOBAL_READER,
        Stage::UpgradeGlobal => kind == OpKind::Upgrade && reader_id == GLOBAL_READER,
        Stage::WriteUnlock => kind == OpKind::WriteUnlock || (kind == OpKind::Downgrade && local),
        Stage::FinishedRead { reader_id: id } => reading && (id == reader_id || id == GLOBAL_READER),
        Stage::FinishedWrite => kind == OpKind::Write,
        Stage::FinishedUnlock => kind == OpKind::ReadUnlock || kind == OpKind::WriteUnlock,
        Stage::FinishedUpgrade { atomic } => kind == OpKind::Upgrade && (atomic ==> reader_id
            == GLOBAL_READER),
    }
}

/// Whether `o` is a result that an operation of kind `kind` for reader `reader_id` may give:
/// a read lock through the reader's own local word or through the global word for reads and
/// downgrades, the write lock for writes and upgrades, nothing for unlocks. Only a read lock
/// held through the global word can be upgraded atomically.
pub open spec fn outcome_fits(kind: OpKind, reader_id: nat, o: Outcome) -> bool {
    match o {
        Outcome::Read(g) => (kind == OpKind::Read || kind == OpKind::Downgrade) && (g.id()
            == reader_id || g.id() == GLOBAL_READER),
        Outcome::Write(_) => kind == OpKind::Write,
        Outcome::Unlocked => kind == OpKind::ReadUnlock || kind == OpKind::WriteUnlock,
        Outcome::Upgraded(u) => kind == OpKind::Upgrade && (u is AtomicUpgrade ==> reader_id
            == GLOBAL_READER),
    }
}

/// The stage after an operation of kind `kind` has obtained the write lock.
pub open spec fn write_done_stage(kind: OpKind) -> Stage {
    if kind == OpKind::Upgrade {
        Stage::FinishedUpgrade { atomic: false }
    } else {
        Stage::FinishedWrite
    }
}

/// The stage after the writer has seen the local words without readers: the wait for
/// global readers if they were in when it claimed the lock, else done.
pub open spec fn after_locals_stage(kind: OpKind, recheck: bool) -> Stage {
    if recheck {
        Stage::WaitGlobal { phase: WaitPhase::First }
    } else {
        write_done_stage(kind)
    }
}

/// The stage after a writer claimed the lock: make every local word global if the lock
/// was in local mode (`must_prep`), else go on as after the local words.
pub open spec fn after_claim_stage(kind: OpKind, must_prep: bool, recheck: bool) -> Stage {
    if must_prep {
        Stage::MakeGlobal { next: 0, remaining: None, recheck }
    } else {
        after_locals_stage(kind, recheck)
    }
}

/// The stage after local word `next` was made global, `no_readers` telling whether it had
/// none: the next word; after the last one, the wait on the highest word that had readers,
/// or, if none had, what follows the local words.
pub open spec fn after_make_global_stage(
    kind: OpKind,
    next: usize,
    remaining: Option<usize>,
    recheck: bool,
    no_readers: bool,
) -> Stage {
    let remaining = if no_readers {
        remaining
    } else {
        Some(next)
    };
    if next + 1 < LOCK_COUNT {
        Stage::MakeGlobal { next: (next + 1) as usize, remaining, recheck }
    } else {
        match remaining {
            Some(pos) => Stage::WaitLocal { pos, phase: WaitPhase::First, recheck },
            None => after_locals_stage(kind, recheck),
        }
    }
}

/// The stage after a read lock was given back: done, or on to the write lock in an upgrade.
pub open spec fn read_unlocked_stage(kind: OpKind) -> Stage {
    if kind == OpKind::Upgrade {
        Stage::WriteTry { slow: false }
    } else {
        Stage::FinishedUnlock
    }
}

/// What to ask once parked threads were looked for: wake them all if the park flag was set.
pub open spec fn unpark_action(had_parked: bool) -> Action {
    if had_parked {
        Action::UnparkAll
    } else {
        Action::Continue
    }
}

/// What a leaving local reader asks: wake the writer parked on its word `reader_id` if it
/// was the last reader that writer waited for.
pub open spec fn local_release_action(wake_writer: bool, reader_id: usize) -> Action {
    if wake_writer {
        Action::UnparkLocal(reader_id)
    } else {
        Action::Continue
    }
}

/// What a leaving global reader asks: wake the writer that waits for global readers if one
/// has claimed the lock, else wake all parked threads if the park flag was set.
pub open spec fn global_release_action(wake_writer: bool, had_parked: bool) -> Action {
    if wake_writer {
        Action::UnparkPrivWriter
    } else {
        unpark_action(had_parked)
    }
}

/// The operation moved to stage `s` and asks to go on.
pub open spec fn moved(old: LockOp, new: LockOp, a: Action, s: Stage) -> bool {
    new.stage() == s && new.was_parked() == old.was_parked() && a is Continue
}

/// The operation moved to stage `s`, keeping its park flag, and asks for `b`.
pub open spec fn moved_asking(old: LockOp, new: LockOp, a: Action, s: Stage, b: Action) -> bool {
    new.stage() == s && new.was_parked() == old.was_parked() && a == b
}

/// A blocked reader enters the loop that parks: at once the first time, parking afterwards.
pub open spec fn read_failed(old: LockOp, new: LockOp, a: Action, slow: bool) -> bool {
    &&& new.stage() is ReadSlowTop
    &&& if slow {
        a is ParkReader && new.was_parked() == old.was_parked()
    } else {
        a is Continue && !new.was_parked()
    }
}

/// The top of a loop that parks: try again, after a spin hint unless just unparked.
pub open spec fn loop_top(old: LockOp, new: LockOp, a: Action, s: Stage) -> bool {
    &&& new.stage() == s
    &&& !new.was_parked()
    &&& if old.was_parked() {
        a is Continue
    } else {
        a is SpinHint
    }
}

/// The stages a read may move to in one step, and what it asks for. Only the fast global
/// attempt ends with a read lock through the global word; every other path ends with one
/// through the thread's own local word.
pub open spec fn read_step_fits(old: LockOp, new: LockOp, a: Action) -> bool {
    let own = Stage::FinishedRead { reader_id: old.reader() as usize };
    match old.stage() {
        Stage::ReadLocalFast => moved(old, new, a, own) || moved(old, new, a, Stage::ReadLocalSlow),
        Stage::ReadLocalSlow => moved(old, new, a, own) || moved(old, new, a, Stage::ReadFastGlobal)
            || moved(old, new, a, Stage::ReadLocalSlow),
        Stage::ReadFastGlobal => moved(old, new, a, Stage::FinishedRead { reader_id: GLOBAL_READER })
            || moved(old, new, a, Stage::ReadTryGlobal { slow: false }),
        Stage::ReadTryGlobal { slow } => moved(old, new, a, Stage::DeglobalizeFast) || moved(
            old,
            new,
            a,
            Stage::ReadTryLocalFast { slow },
        ) || read_failed(old, new, a, slow),
        Stage::ReadTryLocalFast { slow } => moved(old, new, a, own) || moved(
            old,
            new,
            a,
            Stage::ReadTryLocalSlow { slow },
        ),
        Stage::ReadTryLocalSlow { slow } => moved(old, new, a, own) || moved(old, new, a, old.stage())
            || read_failed(old, new, a, slow),
        Stage::ReadSlowTop => loop_top(old, new, a, Stage::ReadTryGlobal { slow: true }),
        Stage::DeglobalizeFast => moved(old, new, a, Stage::DeglobalizeNeighbours) || moved(
            old,
            new,
            a,
            Stage::DeglobalizeSlow,
        ),
        Stage::DeglobalizeSlow => moved(old, new, a, Stage::DeglobalizeNeighbours) || moved(
            old,
            new,
            a,
            Stage::DeglobalizeSlow,
        ),
        Stage::DeglobalizeNeighbours => moved(old, new, a, Stage::ClearPrep),
        Stage::ClearPrep => moved(old, new, a, Stage::ClearPrep) || moved_asking(
            old,
            new,
            a,
            own,
            unpark_action(true),
        ) || moved_asking(old, new, a, own, unpark_action(false)),
        _ => false,
    }
}

/// The stages a writer may move to in one step, and what it asks for. The write lock is
/// reached only by a claim on a free global-mode word, after the last local word was made
/// global with none of them holding readers, after the lowest local word with readers was
/// seen empty, or after the global word was seen without readers.
pub open spec fn write_step_fits(old: LockOp, new: LockOp, a: Action) -> bool {
    match old.stage() {
        Stage::WriteTry { slow } => {
            ||| moved(old, new, a, after_claim_stage(old.kind(), true, true))
            ||| moved(old, new, a, after_claim_stage(old.kind(), true, false))
            ||| moved(old, new, a, after_claim_stage(old.kind(), false, true))
            ||| moved(old, new, a, after_claim_stage(old.kind(), false, false))
            ||| (new.stage() is WriteSlowTop && if slow {
                a is ParkWriter && new.was_parked() == old.was_parked()
            } else {
                a is Continue && !new.was_parked()
            })
        },
        Stage::WriteSlowTop => loop_top(old, new, a, Stage::WriteTry { slow: true }),
        Stage::MakeGlobal { next, remaining, recheck } => {
            ||| moved(old, new, a, old.stage())
            ||| moved(old, new, a, after_make_global_stage(old.kind(), next, remaining, recheck, true))
            ||| moved(old, new, a, after_make_global_stage(old.kind(), next, remaining, recheck, false))
        },
        Stage::WaitLocal { pos, phase, recheck } => match phase {
            WaitPhase::Spin => new.stage() == (Stage::WaitLocal { pos, phase: WaitPhase::Check, recheck })
                && new.was_parked() == old.was_parked() && (if old.was_parked() {
                a is Continue
            } else {
                a is SpinHint
            }),
            _ => {
                ||| (new.stage() == (Stage::WaitLocal { pos, phase: WaitPhase::Spin, recheck }) && if phase
                    is First {
                    a is Continue && !new.was_parked()
                } else {
                    a == Action::ParkLocal(pos) && new.was_parked() == old.was_parked()
                })
                ||| (pos == 0 && moved(old, new, a, after_locals_stage(old.kind(), recheck)))
                ||| (pos > 0 && moved(
                    old,
                    new,
                    a,
                    Stage::WaitLocal { pos: (pos - 1) as usize, phase: WaitPhase::First, recheck },
                ))
            },
        },
        Stage::WaitGlobal { phase } => match phase {
            WaitPhase::Spin => new.stage() == (Stage::WaitGlobal { phase: WaitPhase::Check })
                && new.was_parked() == old.was_parked() && (if old.was_parked() {
                a is Continue
            } else {
                a is SpinHint
            }),
            _ => {
                ||| (new.stage() == (Stage::WaitGlobal { phase: WaitPhase::Spin }) && if phase is First {
                    a is Continue && !new.was_parked()
                } else {
                    a is ParkPrivWriter && new.was_parked() == old.was_parked()
                })
                ||| moved(old, new, a, write_done_stage(old.kind()))
            },
        },
        _ => false,
    }
}

/// The stages a read unlock (or the start of an upgrade) may move to in one step, and what
/// it asks for. A non-atomic upgrade gives the read lock back before it tries the write lock.
pub open spec fn read_unlock_step_fits(old: LockOp, new: LockOp, a: Action) -> bool {
    let done = read_unlocked_stage(old.kind());
    match old.stage() {
        Stage::UnlockLocalFast => moved(old, new, a, done) || moved(old, new, a, Stage::UnlockLocalSlow),
        Stage::UnlockLocalSlow => moved(old, new, a, Stage::UnlockLocalSlow) || moved_asking(
            old,
            new,
            a,
            done,
            local_release_action(true, old.reader() as usize),
        ) || moved_asking(old, new, a, done, local_release_action(false, old.reader() as usize)),
        Stage::UnlockGlobalFast => moved(old, new, a, Stage::UnlockGlobalSlow) || moved_asking(
            old,
            new,
            a,
            done,
            global_release_action(false, true),
        ) || moved_asking(old, new, a, done, global_release_action(false, false)),
        Stage::UnlockGlobalSlow => moved(old, new, a, Stage::UnlockGlobalSlow) || moved_asking(
            old,
            new,
            a,
            done,
            global_release_action(true, false),
        ) || moved_asking(old, new, a, done, global_release_action(false, true)) || moved_asking(
            old,
            new,
            a,
            done,
            global_release_action(false, false),
        ),
        Stage::UpgradeGlobal => moved(old, new, a, Stage::FinishedUpgrade { atomic: true }) || moved(
            old,
            new,
            a,
            Stage::UnlockGlobalFast,
        ),
        _ => false,
    }
}

/// The result that a finished stage gives.
pub open spec fn outcome_of_stage(stage: Stage, o: Outcome) -> bool {
    match stage {
        Stage::FinishedRead { reader_id } => o matches Outcome::Read(g) && g.id() == reader_id,
        Stage::FinishedWrite => o is Write,
        Stage::FinishedUnlock => o is Unlocked,
        Stage::FinishedUpgrade { atomic } => o matches Outcome::Upgraded(u) && (u is AtomicUpgrade)
            == atomic,
        _ => false,
    }
}

/// One step of any operation: the stages it may move to and what it asks for. A finished
/// operation stays finished and gives its result; the write unlock gives the write lock
/// back, then a downgrade goes on to read.
pub open spec fn step_fits(old: LockOp, new: LockOp, a: Action) -> bool {
    match old.stage() {
        Stage::FinishedRead { .. } | Stage::FinishedWrite | Stage::FinishedUnlock
        | Stage::FinishedUpgrade { .. } => new.stage() == old.stage() && new.was_parked()
            == old.was_parked() && (a matches Action::Done(o) && outcome_of_stage(old.stage(), o)),
        Stage::WriteUnlock => {
            let next = if old.kind() == OpKind::Downgrade {
                Stage::ReadLocalFast
            } else {
                Stage::FinishedUnlock
            };
            moved_asking(old, new, a, next, unpark_action(true)) || moved_asking(
                old,
                new,
                a,
                next,
                unpark_action(false),
            )
        },
        Stage::WriteTry { .. } | Stage::WriteSlowTop | Stage::MakeGlobal { .. } | Stage::WaitLocal { .. }
        | Stage::WaitGlobal { .. } => write_step_fits(old, new, a),
        Stage::UnlockLocalFast | Stage::UnlockLocalSlow | Stage::UnlockGlobalFast | Stage::UnlockGlobalSlow
        | Stage::UpgradeGlobal => read_unlock_step_fits(old, new, a),
        _ => read_step_fits(old, new, a),
    }
}

/// The stage after a writer claimed the lock, from what the claim reported.
pub fn after_claim(kind: OpKind, must_prep: bool, recheck: bool) -> (s: Stage)
    ensures
        s == after_claim_stage(kind, must_prep, recheck),
{
    if must_prep {
        Stage::MakeGlobal { next: 0, remaining: None, recheck }
    } else if recheck {
        Stage::WaitGlobal { phase: WaitPhase::First }
    } else if kind == OpKind::Upgrade {
        Stage::FinishedUpgrade { atomic: false }
    } else {
        Stage::FinishedWrite
    }
}

/// The stage after local word `next` was made global, from whether it had readers.
pub fn after_make_global(
    kind: OpKind,
    next: usize,
    remaining: Option<usize>,
    recheck: bool,
    no_readers: bool,
) -> (s: Stage)
    requires
        next < LOCK_COUNT,
    ensures
        s == after_make_global_stage(kind, next, remaining, recheck, no_readers),
{
    let remaining = if no_readers {
        remaining
    } else {
        Some(next)
    };
    if next + 1 < LOCK_COUNT as usize {
        Stage::MakeGlobal { next: next + 1, remaining, recheck }
    } else {
        match remaining {
            Some(pos) => Stage::WaitLocal { pos, phase: WaitPhase::First, recheck },
            None => {
                if recheck {
                    Stage::WaitGlobal { phase: WaitPhase::First }
                } else if kind == OpKind::Upgrade {
                    Stage::FinishedUpgrade { atomic: false }
                } else {
                    Stage::FinishedWrite
                }
            },
        }
    }
}

/// What to ask once the park flag was looked at.
pub fn unpark_action_of(had_parked: bool) -> (a: Action)
    ensures
        a == unpark_action(had_parked),
{
    if had_parked {
        Action::UnparkAll
    } else {
        Action::Continue
    }
}

/// What a leaving local reader asks, from whether a writer waits for it.
pub fn local_release_action_of(wake_writer: bool, reader_id: usize) -> (a: Action)
    ensures
        a == local_release_action(wake_writer, reader_id),
{
    if wake_writer {
        Action::UnparkLocal(reader_id)
    } else {
        Action::Continue
    }
}

/// What a leaving global reader asks, from whether a writer waits for global readers and
/// whether the park flag was set.
pub fn global_release_action_of(wake_writer: bool, had_parked: bool) -> (a: Action)
    ensures
        a == global_release_action(wake_writer, had_parked),
{
    if wake_writer {
        Action::UnparkPrivWriter
    } else {
        unpark_action_of(had_parked)
    }
}

/// What one attempt on the lock words found.
#[derive(Clone, Copy)]
pub enum Seen {
    /// Nothing was tried: the stage needs no update of a word.
    Nothing,
    /// A compare-and-swap that succeeded or not; for a writer's wait, whether readers were seen.
    Flag(bool),
    /// One round of an update that is retried: `None` if the word changed meanwhile, else
    /// what the update reported.
    Attempt(Option<bool>),
    /// A writer's claim: `Some((must_prep, recheck))` once claimed.
    Claim(Option<(bool, bool)>),
    /// The global half of a read attempt.
    Choice(GlobalReadTry),
    /// An update after which parked threads may have to be woken: whether the update was
    /// made, whether it found a writer waiting for global readers, and whether the park flag
    /// was set (and so cleared).
    Release { done: bool, wake_writer: bool, had_parked: bool },
}

/// The kind of report that the attempt of an unfinished stage gives.
pub open spec fn seen_fits(stage: Stage, seen: Seen) -> bool {
    match stage {
        Stage::ReadLocalFast | Stage::ReadFastGlobal | Stage::ReadTryLocalFast { .. }
        | Stage::DeglobalizeFast | Stage::DeglobalizeSlow | Stage::UnlockLocalFast
        | Stage::UpgradeGlobal => seen is Flag,
        Stage::ReadLocalSlow | Stage::ReadTryLocalSlow { .. } | Stage::MakeGlobal { .. }
        | Stage::UnlockLocalSlow => seen is Attempt,
        Stage::ReadTryGlobal { .. } => seen is Choice,
        Stage::WriteTry { .. } => seen is Claim,
        Stage::ReadSlowTop | Stage::WriteSlowTop | Stage::DeglobalizeNeighbours => seen is Nothing,
        Stage::WaitLocal { phase, .. } | Stage::WaitGlobal { phase } => if phase is Spin {
            seen is Nothing
        } else {
            seen is Flag
        },
        Stage::ClearPrep | Stage::UnlockGlobalFast => seen matches Seen::Release { wake_writer, .. }
            && !wake_writer,
        Stage::UnlockGlobalSlow => seen is Release,
        Stage::WriteUnlock => seen matches Seen::Release { done, wake_writer, .. } && done
            && !wake_writer,
        _ => false,
    }
}

/// What one attempt on the lock words did: the value it read from a word before updating
/// it, the compare-and-swaps it made (the second one where it made two), and, where it
/// looked at the park flag, whether the flag was set (and so cleared).
pub struct Observed {
    pub word: u32,
    pub cas: Option<Cas>,
    pub second: Option<Cas>,
    pub park_flag: Option<bool>,
}

/// The stages whose attempt looks at the park flag (and clears it if set): the end of a move
/// to local mode, a global read unlock, and a write unlock.
pub open spec fn looks_at_park_flag(stage: Stage) -> bool {
    stage is ClearPrep || stage is UnlockGlobalFast || stage is UnlockGlobalSlow || stage is WriteUnlock
}

/// The report `seen` of an attempt in `stage` is what the attempt `obs` did on the words:
/// which compare-and-swap each stage makes, and how its report follows from whether it wrote,
/// from the value read, and from the park flag.
pub open spec fn observed_fits(stage: Stage, obs: Observed, seen: Seen) -> bool {
    &&& (looks_at_park_flag(stage) || obs.park_flag is None)
    &&& match stage {
        Stage::ReadLocalFast | Stage::ReadTryLocalFast { .. } => obs.cas matches Some(x) && x.expect
            == 0 && x.new == 1 && seen == Seen::Flag(x.done),
        Stage::ReadLocalSlow | Stage::ReadTryLocalSlow { .. } => seen matches Seen::Attempt(r)
            && local_read_round(obs.word, obs.cas, r),
        Stage::ReadFastGlobal => seen matches Seen::Flag(b) && fast_read_round(obs.cas, b),
        Stage::ReadTryGlobal { .. } => seen matches Seen::Choice(c) && global_read_round(
            obs.word,
            obs.cas,
            c,
        ),
        Stage::DeglobalizeFast => obs.cas matches Some(x) && x.expect == GLOBAL_MASK && x.new == 1
            && seen == Seen::Flag(x.done),
        Stage::DeglobalizeSlow => obs.cas matches Some(x) && x.new == deglobalize_next(x.expect)
            && seen == Seen::Flag(x.done),
        Stage::DeglobalizeNeighbours => {
            &&& seen is Nothing
            &&& obs.cas matches Some(x) && x.expect == GLOBAL_MASK && x.new == 0
            &&& obs.second matches Some(y) && y.expect == GLOBAL_MASK && y.new == 0
        },
        Stage::ClearPrep => obs.cas matches Some(x) && x.new == clear_prep_next(x.expect) && (
        obs.park_flag is Some <==> x.done) && seen == (Seen::Release {
            done: x.done,
            wake_writer: false,
            had_parked: obs.park_flag == Some(true),
        }),
        Stage::WriteTry { .. } => obs.cas matches Some(first) && seen matches Seen::Claim(r)
            && claim_round(first, obs.word, obs.second, r),
        Stage::MakeGlobal { .. } => obs.cas matches Some(x) && x.new == make_global_next(x.expect)
            && seen == Seen::Attempt(
            if x.done {
                Some(!has_readers(x.expect))
            } else {
                None
            },
        ),
        Stage::WaitLocal { phase, .. } | Stage::WaitGlobal { phase } => if phase is Spin {
            seen is Nothing
        } else {
            seen == Seen::Flag(has_readers(obs.word))
        },
        Stage::ReadSlowTop | Stage::WriteSlowTop => seen is Nothing,
        Stage::UnlockLocalFast => obs.cas matches Some(x) && x.expect == 1 && x.new == 0 && seen
            == Seen::Flag(x.done),
        Stage::UnlockLocalSlow => obs.cas matches Some(x) && x.new == release_next(x.expect) && seen
            == Seen::Attempt(
            if x.done {
                Some(local_release_wakes_writer(x.expect))
            } else {
                None
            },
        ),
        Stage::UnlockGlobalFast => obs.cas matches Some(x) && x.expect == GLOBAL_MASK | 1 && x.new
            == GLOBAL_MASK && (obs.park_flag is Some <==> x.done) && seen == (Seen::Release {
            done: x.done,
            wake_writer: false,
            had_parked: obs.park_flag == Some(true),
        }),
        Stage::UnlockGlobalSlow => obs.cas matches Some(x) && x.new == release_next(x.expect) && {
            let wake = x.done && global_release_wakes_writer(x.expect);
            &&& (obs.park_flag is Some <==> x.done && !wake)
            &&& seen == (Seen::Release {
                done: x.done,
                wake_writer: wake,
                had_parked: obs.park_flag == Some(true),
            })
        },
        Stage::UpgradeGlobal => obs.cas matches Some(x) && x.expect == GLOBAL_MASK | 1 && x.new
            == GLOBAL_MASK | WRITER_MASK && seen == Seen::Flag(x.done),
        Stage::WriteUnlock => {
            &&& obs.cas matches Some(x) && x.expect == GLOBAL_MASK | WRITER_MASK && x.new == GLOBAL_MASK
            &&& obs.park_flag is Some
            &&& seen == (Seen::Release {
                done: true,
                wake_writer: false,
                had_parked: obs.park_flag == Some(true),
            })
        },
        _ => false,
    }
}

/// The record of an attempt that made one compare-and-swap and read nothing else.
pub open spec fn cas_only(x: Cas) -> Observed {
    Observed { word: 0, cas: Some(x), second: None, park_flag: None }
}

/// The record of an attempt that only read a word.
pub open spec fn word_only(c: u32) -> Observed {
    Observed { word: c, cas: None, second: None, park_flag: None }
}

/// The record of an attempt that touched no word.
pub open spec fn nothing_done() -> Observed {
    Observed { word: 0, cas: None, second: None, park_flag: None }
}

/// Go on to stage `s`, keeping the park flag.
pub open spec fn go_on(s: Stage, parked: bool) -> (Stage, Action, bool) {
    (s, Action::Continue, parked)
}

/// A blocked reader or writer enters the loop that parks at `top`: at once the first time
/// (forgetting any earlier park), parking with `park` once in the loop.
pub open spec fn blocked(top: Stage, slow: bool, parked: bool, park: Action) -> (Stage, Action, bool) {
    if slow {
        (top, park, parked)
    } else {
        (top, Action::Continue, false)
    }
}

/// The top of a loop that parks: try `s`, after a spin hint unless just unparked.
pub open spec fn retry_top(s: Stage, parked: bool) -> (Stage, Action, bool) {
    (s, if parked {
        Action::Continue
    } else {
        Action::SpinHint
    }, false)
}

/// What a writer waiting on a word does after looking at it: with readers still in, park
/// (or, the first time, go on to spin and look again); with none, go on to `next`.
pub open spec fn wait_next(
    waiting: Stage,
    phase: WaitPhase,
    readers: bool,
    parked: bool,
    park: Action,
    next: Stage,
) -> (Stage, Action, bool) {
    if readers {
        if phase is First {
            (waiting, Action::Continue, false)
        } else {
            (waiting, park, parked)
        }
    } else {
        go_on(next, parked)
    }
}

/// The next stage, action and park flag of an operation of kind `kind` for reader `reader`
/// in `stage`, once its attempt found `seen`. A report of the wrong kind leaves it where it is.
pub open spec fn next_stage(kind: OpKind, reader: nat, stage: Stage, parked: bool, seen: Seen) -> (
    Stage,
    Action,
    bool,
) {
    let own = Stage::FinishedRead { reader_id: reader as usize };
    let unlocked = read_unlocked_stage(kind);
    let stay = go_on(stage, parked);
    match (stage, seen) {
        (Stage::ReadLocalFast, Seen::Flag(locked)) => if locked {
            go_on(own, parked)
        } else {
            go_on(Stage::ReadLocalSlow, parked)
        },
        (Stage::ReadLocalSlow, Seen::Attempt(r)) => match r {
            Some(true) => go_on(own, parked),
            Some(false) => go_on(Stage::ReadFastGlobal, parked),
            None => stay,
        },
        (Stage::ReadFastGlobal, Seen::Flag(locked)) => if locked {
            go_on(Stage::FinishedRead { reader_id: GLOBAL_READER }, parked)
        } else {
            go_on(Stage::ReadTryGlobal { slow: false }, parked)
        },
        (Stage::ReadTryGlobal { slow }, Seen::Choice(c)) => match c {
            GlobalReadTry::GoLocal => go_on(Stage::DeglobalizeFast, parked),
            GlobalReadTry::TryLocal => go_on(Stage::ReadTryLocalFast { slow }, parked),
            GlobalReadTry::Blocked => blocked(Stage::ReadSlowTop, slow, parked, Action::ParkReader),
        },
        (Stage::ReadTryLocalFast { slow }, Seen::Flag(locked)) => if locked {
            go_on(own, parked)
        } else {
            go_on(Stage::ReadTryLocalSlow { slow }, parked)
        },
        (Stage::ReadTryLocalSlow { slow }, Seen::Attempt(r)) => match r {
            Some(true) => go_on(own, parked),
            Some(false) => blocked(Stage::ReadSlowTop, slow, parked, Action::ParkReader),
            None => stay,
        },
        (Stage::ReadSlowTop, Seen::Nothing) => retry_top(Stage::ReadTryGlobal { slow: true }, parked),
        (Stage::DeglobalizeFast, Seen::Flag(done)) => if done {
            go_on(Stage::DeglobalizeNeighbours, parked)
        } else {
            go_on(Stage::DeglobalizeSlow, parked)
        },
        (Stage::DeglobalizeSlow, Seen::Flag(done)) => if done {
            go_on(Stage::DeglobalizeNeighbours, parked)
        } else {
            stay
        },
        (Stage::DeglobalizeNeighbours, Seen::Nothing) => go_on(Stage::ClearPrep, parked),
        (Stage::ClearPrep, Seen::Release { done, had_parked, .. }) => if done {
            (own, unpark_action(had_parked), parked)
        } else {
            stay
        },
        (Stage::WriteTry { slow }, Seen::Claim(c)) => match c {
            Some((must_prep, recheck)) => go_on(after_claim_stage(kind, must_prep, recheck), parked),
            None => blocked(Stage::WriteSlowTop, slow, parked, Action::ParkWriter),
        },
        (Stage::WriteSlowTop, Seen::Nothing) => retry_top(Stage::WriteTry { slow: true }, parked),
        (Stage::MakeGlobal { next, remaining, recheck }, Seen::Attempt(r)) => match r {
            Some(no_readers) => go_on(
                after_make_global_stage(kind, next, remaining, recheck, no_readers),
                parked,
            ),
            None => stay,
        },
        (Stage::WaitLocal { pos, phase, recheck }, Seen::Nothing) => (
            Stage::WaitLocal { pos, phase: WaitPhase::Check, recheck },
            if parked {
                Action::Continue
            } else {
                Action::SpinHint
            },
            parked,
        ),
        (Stage::WaitLocal { pos, phase, recheck }, Seen::Flag(readers)) => wait_next(
            Stage::WaitLocal { pos, phase: WaitPhase::Spin, recheck },
            phase,
            readers,
            parked,
            Action::ParkLocal(pos),
            if pos == 0 {
                after_locals_stage(kind, recheck)
            } else {
                Stage::WaitLocal { pos: (pos - 1) as usize, phase: WaitPhase::First, recheck }
            },
        ),
        (Stage::WaitGlobal { phase }, Seen::Nothing) => (
            Stage::WaitGlobal { phase: WaitPhase::Check },
            if parked {
                Action::Continue
            } else {
                Action::SpinHint
            },
            parked,
        ),
        (Stage::WaitGlobal { phase }, Seen::Flag(readers)) => wait_next(
            Stage::WaitGlobal { phase: WaitPhase::Spin },
            phase,
            readers,
            parked,
            Action::ParkPrivWriter,
            write_done_stage(kind),
        ),
        (Stage::UnlockLocalFast, Seen::Flag(done)) => if done {
            go_on(unlocked, parked)
        } else {
            go_on(Stage::UnlockLocalSlow, parked)
        },
        (Stage::UnlockLocalSlow, Seen::Attempt(r)) => match r {
            Some(wake_writer) => (unlocked, local_release_action(wake_writer, reader as usize), parked),
            None => stay,
        },
        (Stage::UnlockGlobalFast, Seen::Release { done, had_parked, .. }) => if done {
            (unlocked, global_release_action(false, had_parked), parked)
        } else {
            go_on(Stage::UnlockGlobalSlow, parked)
        },
        (Stage::UnlockGlobalSlow, Seen::Release { done, wake_writer, had_parked }) => if done {
            (unlocked, global_release_action(wake_writer, had_parked), parked)
        } else {
            stay
        },
        (Stage::UpgradeGlobal, Seen::Flag(upgraded)) => if upgraded {
            go_on(Stage::FinishedUpgrade { atomic: true }, parked)
        } else {
            go_on(Stage::UnlockGlobalFast, parked)
        },
        (Stage::WriteUnlock, Seen::Release { had_parked, .. }) => (
            if kind == OpKind::Downgrade {
                Stage::ReadLocalFast
            } else {
                Stage::FinishedUnlock
            },
            unpark_action(had_parked),
            parked,
        ),
        _ => stay,
    }
}

/// Decides `next_stage`: where an operation goes once its attempt found `seen`.
pub fn decide_next(kind: OpKind, reader_id: usize, stage: Stage, parked: bool, seen: Seen) -> (r: (
    Stage,
    Action,
    bool,
))
    requires
        stage matches Stage::MakeGlobal { next, .. } ==> next < LOCK_COUNT,
    ensures
        r == next_stage(kind, reader_id as nat, stage, parked, seen),
{
    let own = Stage::FinishedRead { reader_id };
    match (stage, seen) {
        (Stage::ReadLocalFast, Seen::Flag(locked)) => if locked {
            (own, Action::Continue, parked)
        } else {
            (Stage::ReadLocalSlow, Action::Continue, parked)
        },
        (Stage::ReadLocalSlow, Seen::Attempt(r)) => match r {
            Some(true) => (own, Action::Continue, parked),
            Some(false) => (Stage::ReadFastGlobal, Action::Continue, parked),
            None => (stage, Action::Continue, parked),
        },
        (Stage::ReadFastGlobal, Seen::Flag(locked)) => if locked {
            (Stage::FinishedRead { reader_id: GLOBAL_READER }, Action::Continue, parked)
        } else {
            (Stage::ReadTryGlobal { slow: false }, Action::Continue, parked)
        },
        (Stage::ReadTryGlobal { slow }, Seen::Choice(c)) => match c {
            GlobalReadTry::GoLocal => (Stage::DeglobalizeFast, Action::Continue, parked),
            GlobalReadTry::TryLocal => (Stage::ReadTryLocalFast { slow }, Action::Continue, parked),
            GlobalReadTry::Blocked => if slow {
                (Stage::ReadSlowTop, Action::ParkReader, parked)
            } else {
                (Stage::ReadSlowTop, Action::Continue, false)
            },
        },
        (Stage::ReadTryLocalFast { slow }, Seen::Flag(locked)) => if locked {
            (own, Action::Continue, parked)
        } else {
            (Stage::ReadTryLocalSlow { slow }, Action::Continue, parked)
        },
        (Stage::ReadTryLocalSlow { slow }, Seen::Attempt(r)) => match r {
            Some(true) => (own, Action::Continue, parked),
            Some(false) => if slow {
                (Stage::ReadSlowTop, Action::ParkReader, parked)
            } else {
                (Stage::ReadSlowTop, Action::Continue, false)
            },
            None => (stage, Action::Continue, parked),
        },
        (Stage::ReadSlowTop, Seen::Nothing) => (
            Stage::ReadTryGlobal { slow: true },
            if parked {
                Action::Continue
            } else {
                Action::SpinHint
            },
            false,
        ),
        (Stage::DeglobalizeFast, Seen::Flag(done)) => if done {
            (Stage::DeglobalizeNeighbours, Action::Continue, parked)
        } else {
            (Stage::DeglobalizeSlow, Action::Continue, parked)
        },
        (Stage::DeglobalizeSlow, Seen::Flag(done)) => if done {
            (Stage::DeglobalizeNeighbours, Action::Continue, parked)
        } else {
            (stage, Action::Continue, parked)
        },
        (Stage::DeglobalizeNeighbours, Seen::Nothing) => (Stage::ClearPrep, Action::Continue, parked),
        (Stage::ClearPrep, Seen::Release { done, had_parked, .. }) => if done {
            (own, unpark_action_of(had_parked), parked)
        } else {
            (stage, Action::Continue, parked)
        },
        (Stage::WriteTry { slow }, Seen::Claim(c)) => match c {
            Some((must_prep, recheck)) => (after_claim(kind, must_prep, recheck), Action::Continue, parked),
            None => if slow {
                (Stage::WriteSlowTop, Action::ParkWriter, parked)
            } else {
                (Stage::WriteSlowTop, Action::Continue, false)
            },
        },
        (Stage::WriteSlowTop, Seen::Nothing) => (
            Stage::WriteTry { slow: true },
            if parked {
                Action::Continue
            } else {
                Action::SpinHint
            },
            false,
        ),
        (Stage::MakeGlobal { next, remaining, recheck }, Seen::Attempt(r)) => match r {
            Some(no_readers) => (
                after_make_global(kind, next, remaining, recheck, no_readers),
                Action::Continue,
                parked,
            ),
            None => (stage, Action::Continue, parked),
        },
        (Stage::WaitLocal { pos, phase, recheck }, Seen::Nothing) => (
            Stage::WaitLocal { pos, phase: WaitPhase::Check, recheck },
            if parked {
                Action::Continue
            } else {
                Action::SpinHint
            },
            parked,
        ),
        (Stage::WaitLocal { pos, phase, recheck }, Seen::Flag(readers)) => {
            if readers {
                let waiting = Stage::WaitLocal { pos, phase: WaitPhase::Spin, recheck };
                if matches!(phase, WaitPhase::First) {
                    (waiting, Action::Continue, false)
                } else {
                    (waiting, Action::ParkLocal(pos), parked)
                }
            } else if pos == 0 {
                (after_claim(kind, false, recheck), Action::Continue, parked)
            } else {
                (Stage::WaitLocal { pos: pos - 1, phase: WaitPhase::First, recheck }, Action::Continue, parked)
            }
        },
        (Stage::WaitGlobal { phase }, Seen::Nothing) => (
            Stage::WaitGlobal { phase: WaitPhase::Check },
            if parked {
                Action::Continue
            } else {
                Action::SpinHint
            },
            parked,
        ),
        (Stage::WaitGlobal { phase }, Seen::Flag(readers)) => {
            if readers {
                let waiting = Stage::WaitGlobal { phase: WaitPhase::Spin };
                if matches!(phase, WaitPhase::First) {
                    (waiting, Action::Continue, false)
                } else {
                    (waiting, Action::ParkPrivWriter, parked)
                }
            } else {
                (after_claim(kind, false, false), Action::Continue, parked)
            }
        },
        (Stage::UnlockLocalFast, Seen::Flag(done)) => if done {
            (unlocked_stage(kind), Action::Continue, parked)
        } else {
            (Stage::UnlockLocalSlow, Action::Continue, parked)
        },
        (Stage::UnlockLocalSlow, Seen::Attempt(r)) => match r {
            Some(wake_writer) => (
                unlocked_stage(kind),
                local_release_action_of(wake_writer, reader_id),
                parked,
            ),
            None => (stage, Action::Continue, parked),
        },
        (Stage::UnlockGlobalFast, Seen::Release { done, had_parked, .. }) => if done {
            (unlocked_stage(kind), global_release_action_of(false, had_parked), parked)
        } else {
            (Stage::UnlockGlobalSlow, Action::Continue, parked)
        },
        (Stage::UnlockGlobalSlow, Seen::Release { done, wake_writer, had_parked }) => if done {
            (unlocked_stage(kind), global_release_action_of(wake_writer, had_parked), parked)
        } else {
            (stage, Action::Continue, parked)
        },
        (Stage::UpgradeGlobal, Seen::Flag(upgraded)) => if upgraded {
            (Stage::FinishedUpgrade { atomic: true }, Action::Continue, parked)
        } else {
            (Stage::UnlockGlobalFast, Action::Continue, parked)
        },
        (Stage::WriteUnlock, Seen::Release { had_parked, .. }) => (
            if kind == OpKind::Downgrade {
                Stage::ReadLocalFast
            } else {
                Stage::FinishedUnlock
            },
            unpark_action_of(had_parked),
            parked,
        ),
        _ => (stage, Action::Continue, parked),
    }
}

/// The stage after a read lock was given back (`read_unlocked_stage`).
pub fn unlocked_stage(kind: OpKind) -> (s: Stage)
    ensures
        s == read_unlocked_stage(kind),
{
    if kind == OpKind::Upgrade {
        Stage::WriteTry { slow: false }
    } else {
        Stage::FinishedUnlock
    }
}

impl LockOp {
    /// The kind of the operation.
    pub closed spec fn kind(&self) -> OpKind {
        self.kind
    }

    /// The local word of the reader (or `GLOBAL_READER`).
    pub closed spec fn reader(&self) -> nat {
        self.reader_id as nat
    }

    /// The stage the operation has reached.
    pub closed spec fn stage(&self) -> Stage {
        self.stage
    }

    /// Whether the thread was unparked last time it parked.
    pub closed spec fn was_parked(&self) -> bool {
        self.parked
    }

    /// Whether the operation has finished.
    pub open spec fn finished(&self) -> bool {
        self.stage() is FinishedRead || self.stage() is FinishedWrite || self.stage() is FinishedUnlock
            || self.stage() is FinishedUpgrade
    }

    /// The operation is in a stage that fits its kind.
    pub closed spec fn wf(&self) -> bool {
        &&& self.reader_id <= GLOBAL_READER
        &&& stage_fits(self.kind, self.reader_id as nat, self.stage)
    }

    /// Records how the last park ended: `true` if the thread was unparked (or parked in
    /// its slot), `false` if the park was refused.
    pub fn resume(&mut self, parked: bool)
        requires
            old(self).wf(),
        ensures
            final(self).wf(),
            final(self).kind() == old(self).kind(),
            final(self).reader() == old(self).reader(),
            final(self).stage() == old(self).stage(),
            final(self).was_parked() == parked,
    {
        self.parked = parked;
    }
}

impl WideRwLock {
    /// A free lock in global mode.
    pub fn new() -> (r: WideRwLock) {
        WideRwLock {
            global: RawGlobalLock::new(),
            locals: [
                RawLocalLock::new(),
                RawLocalLock::new(),
                RawLocalLock::new(),
                RawLocalLock::new(),
                RawLocalLock::new(),
                RawLocalLock::new(),
                RawLocalLock::new(),
                RawLocalLock::new(),
            ],
        }
    }

    /// Starts taking a read lock for the thread `thread_id`; its local word is
    /// `reader_index(thread_id)`.
    pub fn read(&self, thread_id: u64) -> (op: LockOp)
        ensures
            op.wf(),
            op.kind() == OpKind::Read,
            op.reader() == crate::word::reader_index_of(thread_id),
            op.stage() == Stage::ReadLocalFast,
            !op.was_parked(),
    {
        LockOp {
            kind: OpKind::Read,
            reader_id: reader_index(thread_id),
            stage: Stage::ReadLocalFast,
            parked: false,
        }
    }

    /// Starts taking the write lock.
    pub fn write(&self) -> (op: LockOp)
        ensures
            op.wf(),
            op.kind() == OpKind::Write,
            op.stage() == (Stage::WriteTry { slow: false }),
            !op.was_parked(),
    {
        LockOp { kind: OpKind::Write, reader_id: GLOBAL_READER, stage: Stage::WriteTry { slow: false }, parked: false }
    }

    /// The atomic that holds the global word.
    pub closed spec fn global_atomic(&self) -> AtomicU32 {
        self.global.state_atomic()
    }

    /// The atomic that holds the global word; threads park on its address.
    pub fn global_state(&self) -> (r: &AtomicU32)
        ensures
            *r == self.global_atomic(),
    {
        self.global.state_word()
    }

    /// The validation of a reader parking on the global word.
    pub fn read_park_validate(&self) -> bool {
        self.global.read_park_validate().0
    }

    /// The validation of a writer parking on the global word.
    pub fn write_park_validate(&self) -> bool {
        self.global.write_park_validate().0
    }

    /// A filter to choose the parked threads to wake.
    pub fn unpark_filter(&self) -> (r: UnparkFilter)
        ensures
            r.at_first(),
            !r.first_was_writer(),
    {
        UnparkFilter::new()
    }

    /// After parked threads were woken: if some are still parked, the park flag is set again
    /// (so that the next unlock wakes them). Returns what was stored in the flag (`None`:
    /// nothing).
    pub fn after_unpark(&self, have_more_threads: bool) -> (r: Ghost<Option<bool>>)
        ensures
            r@ == flag_after_unpark(have_more_threads),
    {
        self.global.after_unpark(have_more_threads)
    }

    /// One attempt to park the thread in the slot of local word `i`.
    pub fn park_local_attempt(&self, i: usize, spinwait: &mut SpinWait) -> (r: SlotPark)
        requires
            i < LOCK_COUNT,
    {
        self.locals[i].park_attempt(spinwait)
    }

    /// One attempt to take the spin lock of the slot of local word `i`.
    pub fn acquire_local_slot_attempt(&self, i: usize, spinwait: &mut SpinWait) -> bool
        requires
            i < LOCK_COUNT,
    {
        self.locals[i].acquire_slot_attempt(spinwait)
    }

    /// Releases the spin lock of the slot of local word `i`.
    pub fn release_local_slot(&self, i: usize)
        requires
            i < LOCK_COUNT,
    {
        self.locals[i].release_slot()
    }

    /// One attempt to park the writer in the slot of the global word.
    pub fn park_priv_writer_attempt(&self, spinwait: &mut SpinWait) -> SlotPark {
        self.global.park_attempt(spinwait)
    }

    /// One attempt to take the spin lock of the slot of the global word.
    pub fn acquire_priv_writer_slot_attempt(&self, spinwait: &mut SpinWait) -> bool {
        self.global.acquire_slot_attempt(spinwait)
    }

    /// Releases the spin lock of the slot of the global word.
    pub fn release_priv_writer_slot(&self) {
        self.global.release_slot()
    }

    /// The two local words after `id` that a reader moving the lock to local mode frees.
    pub fn neighbours_to_free(id: usize) -> (r: (usize, usize))
        requires
            id < LOCK_COUNT,
        ensures
            r == (neighbour_of(id as nat, 1) as usize, neighbour_of(id as nat, 2) as usize),
            r.0 < LOCK_COUNT,
            r.1 < LOCK_COUNT,
    {
        (neighbour(id, 1), neighbour(id, 2))
    }

    /// Makes the one attempt on the lock words that the stage of `op` calls for, and reports
    /// what it found, with a record of what it did.
    fn attempt(&self, op: &LockOp) -> (r: (Seen, Ghost<Observed>))
        requires
            op.wf(),
            !op.finished(),
        ensures
            seen_fits(op.stage, r.0),
            observed_fits(op.stage, r.1@, r.0),
    {
        let id = op.reader_id;
        match op.stage {
            Stage::ReadLocalFast | Stage::ReadTryLocalFast { .. } => {
                let (done, Ghost(x)) = self.locals[id].try_read_lock_local_fast();
                (Seen::Flag(done), Ghost(cas_only(x)))
            },
            Stage::ReadLocalSlow | Stage::ReadTryLocalSlow { .. } => {
                let (r, Ghost(rec)) = self.locals[id].try_read_lock_local_slow_attempt();
                (Seen::Attempt(r), Ghost(Observed { word: rec.0, cas: rec.1, second: None, park_flag: None }))
            },
            Stage::ReadFastGlobal => {
                let (done, Ghost(x)) = self.global.try_fast_read_lock();
                (Seen::Flag(done), Ghost(Observed { word: 0, cas: x, second: None, park_flag: None }))
            },
            Stage::ReadTryGlobal { .. } => {
                let (c, Ghost(rec)) = self.global.try_read_lock_global();
                (Seen::Choice(c), Ghost(Observed { word: rec.0, cas: rec.1, second: None, park_flag: None }))
            },
            Stage::DeglobalizeFast => {
                let (done, Ghost(x)) = self.locals[id].read_lock_deglobalize_fast();
                (Seen::Flag(done), Ghost(cas_only(x)))
            },
            Stage::DeglobalizeSlow => {
                let (done, Ghost(x)) = self.locals[id].read_lock_deglobalize_slow_attempt();
                (Seen::Flag(done), Ghost(cas_only(x)))
            },
            Stage::DeglobalizeNeighbours => {
                let (first, second) = Self::neighbours_to_free(id);
                let Ghost(x) = self.locals[first].try_deglobalize();
                let Ghost(y) = self.locals[second].try_deglobalize();
                (Seen::Nothing, Ghost(Observed { word: 0, cas: Some(x), second: Some(y), park_flag: None }))
            },
            Stage::ClearPrep => {
                let (done, Ghost(x)) = self.global.read_unlock_prep_local_attempt();
                if done {
                    let (had_parked, _) = self.global.unpark_all();
                    (
                        Seen::Release { done, wake_writer: false, had_parked },
                        Ghost(Observed { word: 0, cas: Some(x), second: None, park_flag: Some(had_parked) }),
                    )
                } else {
                    (Seen::Release { done, wake_writer: false, had_parked: false }, Ghost(cas_only(x)))
                }
            },
            Stage::WriteTry { .. } => {
                let (r, Ghost(rec)) = self.global.try_write_lock();
                (
                    Seen::Claim(r),
                    Ghost(Observed { word: rec.1, cas: Some(rec.0), second: rec.2, park_flag: None }),
                )
            },
            Stage::MakeGlobal { next, .. } => {
                let (r, Ghost(x)) = self.locals[next].make_global_attempt();
                (Seen::Attempt(r), Ghost(cas_only(x)))
            },
            Stage::WaitLocal { pos, phase, .. } => match phase {
                WaitPhase::Spin => (Seen::Nothing, Ghost(nothing_done())),
                _ => {
                    let (readers, Ghost(c)) = self.locals[pos].has_readers();
                    (Seen::Flag(readers), Ghost(word_only(c)))
                },
            },
            Stage::WaitGlobal { phase } => match phase {
                WaitPhase::Spin => (Seen::Nothing, Ghost(nothing_done())),
                _ => {
                    let (readers, Ghost(c)) = self.global.has_readers();
                    (Seen::Flag(readers), Ghost(word_only(c)))
                },
            },
            Stage::UnlockLocalFast => {
                let (done, Ghost(x)) = self.locals[id].read_unlock_fast();
                (Seen::Flag(done), Ghost(cas_only(x)))
            },
            Stage::UnlockLocalSlow => {
                let (r, Ghost(x)) = self.locals[id].try_slow_release_shared_attempt();
                (Seen::Attempt(r), Ghost(cas_only(x)))
            },
            Stage::UnlockGlobalFast => {
                let (done, Ghost(x)) = self.global.try_read_unlock_zero_fast();
                if done {
                    let (had_parked, _) = self.global.unpark_all();
                    (
                        Seen::Release { done, wake_writer: false, had_parked },
                        Ghost(Observed { word: 0, cas: Some(x), second: None, park_flag: Some(had_parked) }),
                    )
                } else {
                    (Seen::Release { done, wake_writer: false, had_parked: false }, Ghost(cas_only(x)))
                }
            },
            Stage::UnlockGlobalSlow => {
                let (r, Ghost(x)) = self.global.read_unlock_slow_attempt();
                match r {
                    None => (
                        Seen::Release { done: false, wake_writer: false, had_parked: false },
                        Ghost(cas_only(x)),
                    ),
                    Some(wake_writer) => {
                        if wake_writer {
                            (Seen::Release { done: true, wake_writer, had_parked: false }, Ghost(cas_only(x)))
                        } else {
                            let (had_parked, _) = self.global.unpark_all();
                            (
                                Seen::Release { done: true, wake_writer, had_parked },
                                Ghost(Observed { word: 0, cas: Some(x), second: None, park_flag: Some(had_parked) }),
                            )
                        }
                    },
                }
            },
            Stage::UpgradeGlobal => {
                let (done, Ghost(x)) = self.global.try_single_reader_upgrade();
                (Seen::Flag(done), Ghost(cas_only(x)))
            },
            Stage::WriteUnlock => {
                let (had_parked, Ghost(x)) = self.global.write_unlock();
                (
                    Seen::Release { done: true, wake_writer: false, had_parked },
                    Ghost(Observed { word: 0, cas: Some(x), second: None, park_flag: Some(had_parked) }),
                )
            },
            _ => (Seen::Nothing, Ghost(nothing_done())),
        }
    }

    /// Makes the next step of `op` and tells the caller what to do.
    pub fn step(&self, op: &mut LockOp) -> (a: Action)
        requires
            old(op).wf(),
        ensures
            final(op).wf(),
            final(op).kind() == old(op).kind(),
            final(op).reader() == old(op).reader(),
            old(op).finished() ==> final(op).stage() == old(op).stage(),
            (a is Done) == old(op).finished(),
            a matches Action::Done(o) ==> outcome_fits(old(op).kind(), old(op).reader(), o),
            a matches Action::ParkLocal(i) ==> i < LOCK_COUNT,
            a matches Action::UnparkLocal(i) ==> i == old(op).reader() && i < LOCK_COUNT,
            (a is ParkReader) ==> old(op).kind() == OpKind::Read || old(op).kind() == OpKind::Downgrade,
            (a is ParkWriter || a is ParkPrivWriter || a is ParkLocal) ==> old(op).kind() == OpKind::Write
                || old(op).kind() == OpKind::Upgrade,
            (a is UnparkLocal || a is UnparkPrivWriter) ==> old(op).kind() == OpKind::ReadUnlock
                || old(op).kind() == OpKind::Upgrade,
            a is ParkReader ==> final(op).stage() is ReadSlowTop,
            a is ParkWriter ==> final(op).stage() is WriteSlowTop,
            a is ParkPrivWriter ==> final(op).stage() matches Stage::WaitGlobal { phase: WaitPhase::Spin },
            a matches Action::ParkLocal(i) ==> final(op).stage() matches Stage::WaitLocal {
                pos,
                phase: WaitPhase::Spin,
                ..
            } && pos == i,
            step_fits(*old(op), *final(op), a),
            !old(op).finished() ==> exists|seen: Seen| #[trigger]
                seen_fits(old(op).stage(), seen) && next_stage(
                    old(op).kind(),
                    old(op).reader(),
                    old(op).stage(),
                    old(op).was_parked(),
                    seen,
                ) == (final(op).stage(), a, final(op).was_parked()),
            !old(op).finished() ==> exists|seen: Seen, obs: Observed| #[trigger]
                observed_fits(old(op).stage(), obs, seen) && next_stage(
                    old(op).kind(),
                    old(op).reader(),
                    old(op).stage(),
                    old(op).was_parked(),
                    seen,
                ) == (final(op).stage(), a, final(op).was_parked()),
    {
        match op.stage {
            Stage::FinishedRead { reader_id } => Action::Done(Outcome::Read(ReadGuard { reader_id })),
            Stage::FinishedWrite => Action::Done(Outcome::Write(WriteGuard { token: () })),
            Stage::FinishedUnlock => Action::Done(Outcome::Unlocked),
            Stage::FinishedUpgrade { atomic } => {
                let w = WriteGuard { token: () };
                Action::Done(
                    Outcome::Upgraded(
                        if atomic {
                            UpgradeResult::AtomicUpgrade(w)
                        } else {
                            UpgradeResult::NonAtomicUpgrade(w)
                        },
                    ),
                )
            },
            _ => {
                let (seen, Ghost(obs)) = self.attempt(op);
                let (stage, a, parked) = decide_next(op.kind, op.reader_id, op.stage, op.parked, seen);
                if matches!(a, Action::ParkReader) || matches!(a, Action::ParkWriter) {
                    let _ = self.global.raise_park_flag();
                }
                op.stage = stage;
                op.parked = parked;
                a
            },
        }
    }
}


// ---------------------------------------------------------------------------
// Laws of one step, over what its attempt did on the words

/// A read that ends with a read lock through its own local word got it by a compare-and-swap
/// that wrote: one that added exactly one reader to a word that was not global (from the value
/// it read, or from a free word to one reader). A read lock is never reported on a word whose
/// count was left as it was.
pub proof fn lemma_local_read_counts_its_reader(
    kind: OpKind,
    reader: nat,
    stage: Stage,
    parked: bool,
    obs: Observed,
    seen: Seen,
)
    requires
        stage is ReadLocalFast || stage is ReadLocalSlow || stage is ReadTryLocalFast
            || stage is ReadTryLocalSlow,
        observed_fits(stage, obs, seen),
        next_stage(kind, reader, stage, parked, seen).0 == (Stage::FinishedRead {
            reader_id: reader as usize,
        }),
    ensures
        obs.cas matches Some(x) && x.done && !global_bit(x.expect) && x.new == x.expect + 1 && (
        readers(x.expect) < READER_MASK ==> readers(x.new) == readers(x.expect) + 1),
        (stage is ReadLocalSlow || stage is ReadTryLocalSlow) ==> obs.cas->0.expect == obs.word,
{
    let x = obs.cas->0;
    let e = x.expect;
    assert(e & 0x2000_0000 == 0 ==> e + 1 <= u32::MAX) by (bit_vector);
    assert((e & 0x01ff_ffff) < 0x01ff_ffff ==> ((((e + 1) as u32) & 0x01ff_ffff) == (e & 0x01ff_ffff)
        + 1)) by (bit_vector);
    assert(0u32 & 0x2000_0000 == 0) by (bit_vector);
}

/// A writer waiting for the readers of a word stops waiting on it only when the word's reader
/// count, its low `READER_BITS` bits, is zero: it looks again (spins, then parks) exactly while
/// the count it read is not zero, whatever flags the word carries.
pub proof fn lemma_wait_ends_only_without_readers(
    kind: OpKind,
    reader: nat,
    stage: Stage,
    parked: bool,
    obs: Observed,
    seen: Seen,
)
    requires
        (stage matches Stage::WaitLocal { phase, .. } && !(phase is Spin)) || (
        stage matches Stage::WaitGlobal { phase } && !(phase is Spin)),
        observed_fits(stage, obs, seen),
    ensures
        stage matches Stage::WaitLocal { pos, recheck, .. } ==> (next_stage(kind, reader, stage, parked, seen).0
            == (Stage::WaitLocal { pos, phase: WaitPhase::Spin, recheck })) == (obs.word % 0x0200_0000
            != 0),
        stage is WaitGlobal ==> (next_stage(kind, reader, stage, parked, seen).0 == (Stage::WaitGlobal {
            phase: WaitPhase::Spin,
        })) == (obs.word % 0x0200_0000 != 0),
{
    crate::word::lemma_has_readers_is_count(obs.word);
}

/// Making a local word global sets its global flag and keeps its count; when it writes, it
/// reports the word empty exactly when the count it found, the low `READER_BITS` bits, is zero.
pub proof fn lemma_make_global_reports_readers(stage: Stage, obs: Observed, seen: Seen)
    requires
        stage is MakeGlobal,
        observed_fits(stage, obs, seen),
    ensures
        global_bit(obs.cas->0.new),
        readers(obs.cas->0.new) == readers(obs.cas->0.expect),
        obs.cas->0.done ==> seen == Seen::Attempt(Some(obs.cas->0.expect % 0x0200_0000 == 0)),
        !obs.cas->0.done ==> seen == Seen::Attempt(None),
{
    let e = obs.cas->0.expect;
    crate::word::lemma_has_readers_is_count(e);
    assert((e | 0x2000_0000) & 0x2000_0000 != 0 && (e | 0x2000_0000) & 0x01ff_ffff == e & 0x01ff_ffff)
        by (bit_vector);
}

/// The atomic upgrade and the write unlock that follows it: the upgrade writes only over a
/// global-mode word with exactly one reader (its own) and no writer or reader moving to local
/// mode, and leaves the writer alone on it, with no reader counted; that is exactly the word the
/// write unlock expects, and the unlock leaves the word free in global mode, the very word a
/// fast global read expects next.
pub proof fn lemma_upgrade_then_unlock_frees(
    up_obs: Observed,
    up_seen: Seen,
    unlock_obs: Observed,
    unlock_seen: Seen,
)
    requires
        observed_fits(Stage::UpgradeGlobal, up_obs, up_seen),
        up_seen == Seen::Flag(true),
        observed_fits(Stage::WriteUnlock, unlock_obs, unlock_seen),
    ensures
        up_obs.cas->0.done,
        readers(up_obs.cas->0.expect) == 1,
        global_bit(up_obs.cas->0.expect) && !writer_bit(up_obs.cas->0.expect) && !prep_bit(
            up_obs.cas->0.expect,
        ),
        readers(up_obs.cas->0.new) == 0,
        writer_bit(up_obs.cas->0.new) && global_bit(up_obs.cas->0.new) && !prep_bit(up_obs.cas->0.new),
        up_obs.cas->0.new == unlock_obs.cas->0.expect,
        readers(unlock_obs.cas->0.new) == 0,
        !writer_bit(unlock_obs.cas->0.new) && global_bit(unlock_obs.cas->0.new) && !prep_bit(
            unlock_obs.cas->0.new,
        ),
        fast_read_expect(unlock_obs.cas->0.new) == unlock_obs.cas->0.new,
{
    assert(((0x2000_0000u32 | 1) & 0x01ff_ffff) == 1 && (0x2000_0000u32 | 1) & 0x2000_0000 != 0 && (
    0x2000_0000u32 | 1) & 0x0400_0000 == 0 && (0x2000_0000u32 | 1) & 0x0800_0000 == 0)
        by (bit_vector);
    assert(((0x2000_0000u32 | 0x0400_0000) & 0x01ff_ffff) == 0 && (0x2000_0000u32 | 0x0400_0000)
        & 0x2000_0000 != 0 && (0x2000_0000u32 | 0x0400_0000) & 0x0400_0000 != 0 && (0x2000_0000u32
        | 0x0400_0000) & 0x0800_0000 == 0) by (bit_vector);
    assert((0x2000_0000u32 & 0x01ff_ffff) == 0 && 0x2000_0000u32 & 0x2000_0000 != 0
        && 0x2000_0000u32 & 0x0400_0000 == 0 && 0x2000_0000u32 & 0x0800_0000 == 0
        && 0x2000_0000u32 & !0x0400_0000u32 == 0x2000_0000u32) by (bit_vector);
}

/// Whenever an attempt finds the park flag set (and so clears it), the operation asks for the
/// parked threads to be woken, whatever its kind: a write unlock and a downgrade alike, a
/// global read unlock, and the end of a move to local mode. A write unlock always looks at the
/// flag, and asks to wake exactly when it was set; a downgrade then goes on to read.
pub proof fn lemma_cleared_flag_wakes_parked(
    kind: OpKind,
    reader: nat,
    stage: Stage,
    parked: bool,
    obs: Observed,
    seen: Seen,
)
    requires
        observed_fits(stage, obs, seen),
    ensures
        obs.park_flag == Some(true) ==> next_stage(kind, reader, stage, parked, seen).1 is UnparkAll,
        stage is WriteUnlock ==> obs.park_flag is Some && next_stage(kind, reader, stage, parked, seen)
            == (if kind == OpKind::Downgrade {
            Stage::ReadLocalFast
        } else {
            Stage::FinishedUnlock
        }, unpark_action(obs.park_flag == Some(true)), parked),
{
}

/// After a wake-up that leaves threads parked the park flag is set, and after one that leaves
/// none it is not touched; so a write unlock or a downgrade that next finds the flag as that
/// wake-up left it asks to wake the threads still parked.
pub proof fn lemma_threads_left_parked_are_woken(
    have_more_threads: bool,
    kind: OpKind,
    reader: nat,
    parked: bool,
    obs: Observed,
    seen: Seen,
)
    requires
        observed_fits(Stage::WriteUnlock, obs, seen),
        flag_after_unpark(have_more_threads) is Some ==> obs.park_flag == flag_after_unpark(
            have_more_threads,
        ),
    ensures
        have_more_threads <==> flag_after_unpark(have_more_threads) == Some(true),
        !have_more_threads ==> flag_after_unpark(have_more_threads) is None,
        have_more_threads ==> next_stage(kind, reader, Stage::WriteUnlock, parked, seen).1 is UnparkAll,
{
}

} // verus!
