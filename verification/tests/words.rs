use widerwlock::word::{
    decide_global_release_wakes_writer, decide_has_readers, decide_local_release_wakes_writer,
    decide_read_park_valid, decide_write_park_valid, neighbour, plan_bias, plan_clear_prep,
    plan_deglobalize, plan_fast_read, plan_go_local, plan_local_read, plan_make_global,
    plan_release, plan_write_claim, reader_index, GLOBAL_MASK, PREPARING_TO_GO_LOCAL,
    READER_MASK, WRITER_MASK,
};

#[test]
fn layout_constants() {
    assert_eq!(READER_MASK, (1 << 25) - 1);
    assert_eq!(WRITER_MASK, 1 << 26);
    assert_eq!(PREPARING_TO_GO_LOCAL, 1 << 27);
    assert_eq!(GLOBAL_MASK, 1 << 29);
}

#[test]
fn local_read_counts_one_more_reader_unless_global() {
    assert_eq!(plan_local_read(0), Some(1));
    assert_eq!(plan_local_read(41), Some(42));
    assert_eq!(plan_local_read(GLOBAL_MASK), None);
    assert_eq!(plan_local_read(GLOBAL_MASK | 3), None);
}

#[test]
fn deglobalize_clears_the_flag_and_counts_the_reader() {
    assert_eq!(plan_deglobalize(GLOBAL_MASK), 1);
    assert_eq!(plan_deglobalize(GLOBAL_MASK | 2), 3);
    assert_eq!(plan_deglobalize(4), 5);
}

#[test]
fn make_global_sets_the_flag() {
    assert_eq!(plan_make_global(3), GLOBAL_MASK | 3);
    assert_eq!(plan_make_global(GLOBAL_MASK), GLOBAL_MASK);
}

#[test]
fn release_counts_one_reader_less() {
    assert_eq!(plan_release(1), 0);
    assert_eq!(plan_release(GLOBAL_MASK | 1), GLOBAL_MASK);
    assert_eq!(plan_release(WRITER_MASK | GLOBAL_MASK | 7), WRITER_MASK | GLOBAL_MASK | 6);
    assert_eq!(plan_release(0), u32::MAX);
}

#[test]
fn release_wakeups() {
    assert!(decide_local_release_wakes_writer(GLOBAL_MASK | 1));
    assert!(!decide_local_release_wakes_writer(GLOBAL_MASK | 2));
    assert!(!decide_local_release_wakes_writer(1));
    assert!(decide_global_release_wakes_writer(WRITER_MASK | GLOBAL_MASK | 1));
    assert!(!decide_global_release_wakes_writer(GLOBAL_MASK | 1));
    assert!(decide_has_readers(GLOBAL_MASK | 1));
    assert!(!decide_has_readers(GLOBAL_MASK | WRITER_MASK));
}

#[test]
fn fast_read_expects_no_writer() {
    assert_eq!(plan_fast_read(GLOBAL_MASK | 2), (GLOBAL_MASK | 2, GLOBAL_MASK | 3));
    assert_eq!(plan_fast_read(GLOBAL_MASK | WRITER_MASK), (GLOBAL_MASK, GLOBAL_MASK | 1));
}

#[test]
fn local_bias_saturates_and_stops_fast_reads_at_the_limit() {
    assert_eq!(plan_bias(0), (1, true));
    assert_eq!(plan_bias(98), (99, true));
    assert_eq!(plan_bias(99), (100, false));
    assert_eq!(plan_bias(u32::MAX), (u32::MAX, false));
}

#[test]
fn go_local_needs_no_writer_and_no_preparing_reader() {
    assert_eq!(plan_go_local(GLOBAL_MASK | 2), Some(PREPARING_TO_GO_LOCAL | 2));
    assert_eq!(plan_go_local(0), Some(PREPARING_TO_GO_LOCAL));
    assert_eq!(plan_go_local(GLOBAL_MASK | WRITER_MASK), None);
    assert_eq!(plan_go_local(PREPARING_TO_GO_LOCAL | 1), None);
    assert_eq!(plan_clear_prep(PREPARING_TO_GO_LOCAL | 1), 1);
}

#[test]
fn write_claim_reports_what_to_wait_for() {
    assert_eq!(plan_write_claim(GLOBAL_MASK), Some((GLOBAL_MASK | WRITER_MASK, false, false)));
    assert_eq!(plan_write_claim(GLOBAL_MASK | 2), Some((GLOBAL_MASK | WRITER_MASK | 2, false, true)));
    assert_eq!(plan_write_claim(0), Some((GLOBAL_MASK | WRITER_MASK, true, false)));
    assert_eq!(plan_write_claim(3), Some((GLOBAL_MASK | WRITER_MASK | 3, true, true)));
    assert_eq!(plan_write_claim(GLOBAL_MASK | WRITER_MASK), None);
    assert_eq!(plan_write_claim(PREPARING_TO_GO_LOCAL), None);
}

#[test]
fn park_validation() {
    assert!(decide_read_park_valid(GLOBAL_MASK | WRITER_MASK));
    assert!(decide_read_park_valid(PREPARING_TO_GO_LOCAL));
    assert!(!decide_read_park_valid(GLOBAL_MASK | 4));
    assert!(decide_write_park_valid(GLOBAL_MASK | 1));
    assert!(!decide_write_park_valid(GLOBAL_MASK));
    assert!(!decide_write_park_valid(0));
    assert!(!decide_write_park_valid(1));
}

#[test]
fn threads_map_onto_local_words() {
    assert_eq!(reader_index(0), 0);
    assert_eq!(reader_index(13), 5);
    assert_eq!(reader_index(u64::MAX), 7);
    assert_eq!(neighbour(7, 1), 0);
    assert_eq!(neighbour(6, 2), 0);
    assert_eq!(neighbour(2, 1), 3);
}
