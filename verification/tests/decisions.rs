use widerwlock::global::{global_read_choice, GlobalReadTry};
use widerwlock::local::{slot_park_decision, SlotPark};
use widerwlock::lock::{
    after_claim, after_make_global, decide_next, global_release_action_of, local_release_action_of,
    unpark_action_of, Seen, Stage, WaitPhase,
};
use widerwlock::word::{GLOBAL_MASK, PREPARING_TO_GO_LOCAL, WRITER_MASK};
use widerwlock::{Action, OpKind};

#[test]
fn claim_in_local_mode_makes_the_local_words_global_first() {
    assert!(matches!(
        after_claim(OpKind::Write, true, true),
        Stage::MakeGlobal { next: 0, remaining: None, recheck: true }
    ));
    assert!(matches!(
        after_claim(OpKind::Write, false, true),
        Stage::WaitGlobal { phase: WaitPhase::First }
    ));
    assert!(matches!(after_claim(OpKind::Write, false, false), Stage::FinishedWrite));
    assert!(matches!(
        after_claim(OpKind::Upgrade, false, false),
        Stage::FinishedUpgrade { atomic: false }
    ));
}

#[test]
fn make_global_goes_word_by_word_then_waits_on_the_highest_busy_word() {
    assert!(matches!(
        after_make_global(OpKind::Write, 2, None, false, false),
        Stage::MakeGlobal { next: 3, remaining: Some(2), recheck: false }
    ));
    assert!(matches!(
        after_make_global(OpKind::Write, 3, Some(2), false, true),
        Stage::MakeGlobal { next: 4, remaining: Some(2), recheck: false }
    ));
    assert!(matches!(
        after_make_global(OpKind::Write, 7, Some(2), true, true),
        Stage::WaitLocal { pos: 2, phase: WaitPhase::First, recheck: true }
    ));
    assert!(matches!(
        after_make_global(OpKind::Write, 7, Some(2), true, false),
        Stage::WaitLocal { pos: 7, phase: WaitPhase::First, recheck: true }
    ));
    assert!(matches!(after_make_global(OpKind::Write, 7, None, false, true), Stage::FinishedWrite));
    assert!(matches!(
        after_make_global(OpKind::Write, 7, None, true, true),
        Stage::WaitGlobal { phase: WaitPhase::First }
    ));
}

#[test]
fn leaving_readers_ask_for_the_right_wake_up() {
    assert!(matches!(global_release_action_of(true, true), Action::UnparkPrivWriter));
    assert!(matches!(global_release_action_of(false, true), Action::UnparkAll));
    assert!(matches!(global_release_action_of(false, false), Action::Continue));
    assert!(matches!(local_release_action_of(true, 4), Action::UnparkLocal(4)));
    assert!(matches!(local_release_action_of(false, 4), Action::Continue));
    assert!(matches!(unpark_action_of(true), Action::UnparkAll));
    assert!(matches!(unpark_action_of(false), Action::Continue));
}

#[test]
fn slot_park_parks_only_with_the_spin_lock_and_readers_in() {
    assert!(matches!(slot_park_decision(false, false), SlotPark::Retry));
    assert!(matches!(slot_park_decision(true, true), SlotPark::Acquired));
    assert!(matches!(slot_park_decision(true, false), SlotPark::Invalid));
}

#[test]
fn global_read_choice_goes_local_tries_the_local_word_or_blocks() {
    assert!(matches!(global_read_choice(GLOBAL_MASK, true), GlobalReadTry::GoLocal));
    assert!(matches!(global_read_choice(PREPARING_TO_GO_LOCAL, false), GlobalReadTry::TryLocal));
    assert!(matches!(global_read_choice(GLOBAL_MASK | WRITER_MASK, false), GlobalReadTry::Blocked));
}

#[test]
fn the_wait_for_global_readers_ends_only_when_none_are_seen() {
    let (s, a, p) = decide_next(OpKind::Write, 8, Stage::WaitGlobal { phase: WaitPhase::Check }, true, Seen::Flag(true));
    assert!(matches!(s, Stage::WaitGlobal { phase: WaitPhase::Spin }));
    assert!(matches!(a, Action::ParkPrivWriter));
    assert!(p);
    let (s, a, _) = decide_next(OpKind::Write, 8, Stage::WaitGlobal { phase: WaitPhase::Check }, true, Seen::Flag(false));
    assert!(matches!(s, Stage::FinishedWrite));
    assert!(matches!(a, Action::Continue));
}

#[test]
fn the_wait_on_a_local_word_moves_down_only_when_it_is_empty() {
    let w = Stage::WaitLocal { pos: 3, phase: WaitPhase::First, recheck: false };
    let (s, a, p) = decide_next(OpKind::Write, 8, w, true, Seen::Flag(true));
    assert!(matches!(s, Stage::WaitLocal { pos: 3, phase: WaitPhase::Spin, recheck: false }));
    assert!(matches!(a, Action::Continue));
    assert!(!p);
    let (s, _, _) = decide_next(OpKind::Write, 8, w, true, Seen::Flag(false));
    assert!(matches!(s, Stage::WaitLocal { pos: 2, phase: WaitPhase::First, recheck: false }));
}

#[test]
fn a_failed_single_reader_upgrade_gives_the_read_lock_back() {
    let (s, _, _) = decide_next(OpKind::Upgrade, 8, Stage::UpgradeGlobal, false, Seen::Flag(false));
    assert!(matches!(s, Stage::UnlockGlobalFast));
    let (s, _, _) = decide_next(OpKind::Upgrade, 8, Stage::UpgradeGlobal, false, Seen::Flag(true));
    assert!(matches!(s, Stage::FinishedUpgrade { atomic: true }));
}

#[test]
fn a_read_finishes_only_when_its_update_was_made() {
    let (s, _, _) = decide_next(OpKind::Read, 5, Stage::ReadLocalFast, false, Seen::Flag(false));
    assert!(matches!(s, Stage::ReadLocalSlow));
    let (s, _, _) = decide_next(OpKind::Read, 5, Stage::ReadLocalFast, false, Seen::Flag(true));
    assert!(matches!(s, Stage::FinishedRead { reader_id: 5 }));
}

#[test]
fn a_leaving_global_reader_wakes_the_waiting_writer() {
    let release = Seen::Release { done: true, wake_writer: true, had_parked: false };
    let (s, a, _) = decide_next(OpKind::ReadUnlock, 8, Stage::UnlockGlobalSlow, false, release);
    assert!(matches!(s, Stage::FinishedUnlock));
    assert!(matches!(a, Action::UnparkPrivWriter));
}
