//! Layout of the lock words and the pure computations that the lock performs on them.
//!
//! Every lock word is a `u32`. The global word and the eight local words share one
//! layout: the low `READER_BITS` bits count readers, and three flag bits sit above them.
//! Each function here computes, from a value that was read out of a word, the value to
//! write back (or the decision to take); the atomic operations that read and write the
//! words live in `global` and `local`.
use vstd::prelude::*;

verus! {

/// Number of bits that count readers.
pub const READER_BITS: u32 = 25;

/// The reader count of a word: `(1 << READER_BITS) - 1`.
pub const READER_MASK: u32 = 0x01ff_ffff;

/// Set in the global word while a writer owns, or is acquiring, the lock: `1 << (READER_BITS + 1)`.
pub const WRITER_MASK: u32 = 0x0400_0000;

/// Set in the global word while a reader moves the lock into local mode: `1 << (READER_BITS + 2)`.
pub const PREPARING_TO_GO_LOCAL: u32 = 0x0800_0000;

/// Set in a word that readers may not take locally: `1 << (READER_BITS + 4)`.
pub const GLOBAL_MASK: u32 = 0x2000_0000;

/// The lock has `1 << LOCK_POWER` local words.
pub const LOCK_POWER: u32 = 3;

/// Number of local words.
pub const LOCK_COUNT: u32 = 8;

/// Mask that maps a thread id onto a local word: `(1 << LOCK_POWER) - 1`.
pub const LOCK_MASK: u32 = 7;

/// The park token of a waiting writer.
pub const WRITE_PARK_TOKEN: usize = 1;

/// The park token of a waiting reader.
pub const READ_PARK_TOKEN: usize = 2;

/// Below this many consecutive global reads a reader keeps to the global word.
pub const LOCAL_BIAS_LIMIT: u32 = 100;

/// The reader id that stands for "read lock held through the global word".
pub const GLOBAL_READER: usize = 8;

// ---------------------------------------------------------------------------
// Updates of a word

/// A compare-and-swap made on a lock word: the value it expected, the value it would
/// write, and whether it wrote it (the word held `expect` and now holds `new`).
pub struct Cas {
    pub expect: u32,
    pub new: u32,
    pub done: bool,
}

// ---------------------------------------------------------------------------
// Reading a word

/// Number of readers counted in a word.
pub open spec fn readers(c: u32) -> u32 {
    c & READER_MASK
}

/// Whether the writer flag is set.
pub open spec fn writer_bit(c: u32) -> bool {
    c & WRITER_MASK != 0
}

/// Whether the flag of a reader that moves the lock to local mode is set.
pub open spec fn prep_bit(c: u32) -> bool {
    c & PREPARING_TO_GO_LOCAL != 0
}

/// Whether the global flag is set.
pub open spec fn global_bit(c: u32) -> bool {
    c & GLOBAL_MASK != 0
}

/// A global word holds no bit outside the reader count and the three flags.
pub open spec fn global_word_wf(c: u32) -> bool {
    c & 0xd200_0000 == 0
}

/// A local word holds no bit outside the reader count and the global flag.
pub open spec fn local_word_wf(c: u32) -> bool {
    c & 0xde00_0000 == 0
}

// ---------------------------------------------------------------------------
// Local words

/// What a reader writes into a local word to take a read lock there: one more reader,
/// unless the word is global, where no local read lock may be taken.
pub open spec fn local_read_next(c: u32) -> Option<u32> {
    if global_bit(c) {
        None
    } else {
        Some((c + 1) as u32)
    }
}

/// Plans one attempt of a local read lock on a word that was read as `c`.
pub fn plan_local_read(c: u32) -> (r: Option<u32>)
    ensures
        r == local_read_next(c),
        r is Some ==> c + 1 <= u32::MAX,
{
    if c & GLOBAL_MASK != 0 {
        None
    } else {
        assert(c & 0x2000_0000 == 0 ==> c < 0xffff_ffff) by (bit_vector);
        Some(c + 1)
    }
}

/// What the reader that moves the lock to local mode writes into its own local word:
/// the global flag cleared and one more reader.
pub open spec fn deglobalize_next(c: u32) -> u32 {
    ((c & !GLOBAL_MASK) + 1) as u32
}

/// Computes `deglobalize_next`.
pub fn plan_deglobalize(c: u32) -> (r: u32)
    ensures
        r == deglobalize_next(c),
{
    let cleared = c & !GLOBAL_MASK;
    assert(c & !0x2000_0000u32 < 0xffff_ffff) by (bit_vector);
    cleared + 1
}

/// What a writer writes into a local word to stop local readers: the global flag set.
pub open spec fn make_global_next(c: u32) -> u32 {
    c | GLOBAL_MASK
}

/// Computes `make_global_next`.
pub fn plan_make_global(c: u32) -> (r: u32)
    ensures
        r == make_global_next(c),
{
    c | GLOBAL_MASK
}

/// What a reader writes into a word to give back its read lock: one reader less
/// (a word with no reader wraps around, as the unchecked subtraction in release builds does).
pub open spec fn release_next(c: u32) -> u32 {
    if c == 0 {
        u32::MAX
    } else {
        (c - 1) as u32
    }
}

/// Computes `release_next`.
pub fn plan_release(c: u32) -> (r: u32)
    ensures
        r == release_next(c),
{
    if c == 0 {
        u32::MAX
    } else {
        c - 1
    }
}

/// After a local word was `c` and its reader left, a parked writer must be woken:
/// the word was global with exactly one reader.
pub open spec fn local_release_wakes_writer(c: u32) -> bool {
    c == (GLOBAL_MASK | 1)
}

/// Decides `local_release_wakes_writer`.
pub fn decide_local_release_wakes_writer(c: u32) -> (r: bool)
    ensures
        r == local_release_wakes_writer(c),
{
    c == GLOBAL_MASK | 1
}

/// Whether a word still counts readers (a waiting writer may park while it does).
pub open spec fn has_readers(c: u32) -> bool {
    readers(c) != 0
}

/// Decides `has_readers`.
pub fn decide_has_readers(c: u32) -> (r: bool)
    ensures
        r == has_readers(c),
{
    c & READER_MASK != 0
}

// ---------------------------------------------------------------------------
// The global word

/// The compare-and-swap of a fast global read lock on a word that was read as `c`:
/// it expects the word without the writer flag, and adds one reader to it.
pub open spec fn fast_read_expect(c: u32) -> u32 {
    c & !WRITER_MASK
}

/// The value that a fast global read lock writes when the word is `fast_read_expect(c)`.
pub open spec fn fast_read_new(c: u32) -> u32 {
    ((c & !WRITER_MASK) + 1) as u32
}

/// Plans a fast global read lock: `(expected, new)`.
pub fn plan_fast_read(c: u32) -> (r: (u32, u32))
    ensures
        r == (fast_read_expect(c), fast_read_new(c)),
        !writer_bit(r.0),
        r.1 == r.0 + 1,
{
    let e = c & !WRITER_MASK;
    assert(c & !0x0400_0000u32 < 0xffff_ffff && (c & !0x0400_0000u32) & 0x0400_0000 == 0)
        by (bit_vector);
    (e, e + 1)
}

/// After `n` consecutive global read attempts the local bias is `n` saturated at `u32::MAX`;
/// a fast global read is tried while it stays below `LOCAL_BIAS_LIMIT`.
pub open spec fn bias_next(bias: u32) -> u32 {
    if bias == u32::MAX {
        u32::MAX
    } else {
        (bias + 1) as u32
    }
}

/// Computes the next local bias and whether a fast global read is to be tried.
pub fn plan_bias(bias: u32) -> (r: (u32, bool))
    ensures
        r.0 == bias_next(bias),
        r.1 == (bias_next(bias) < LOCAL_BIAS_LIMIT),
{
    let b = bias.saturating_add(1);
    (b, b < LOCAL_BIAS_LIMIT)
}

/// What a reader writes into the global word to move the lock to local mode:
/// possible only with no writer and no other reader doing so; the global flag is cleared
/// and the preparing flag set.
pub open spec fn go_local_next(c: u32) -> Option<u32> {
    if c & (WRITER_MASK | PREPARING_TO_GO_LOCAL) == 0 {
        Some((c & !GLOBAL_MASK) | PREPARING_TO_GO_LOCAL)
    } else {
        None
    }
}

/// Plans `go_local_next`.
pub fn plan_go_local(c: u32) -> (r: Option<u32>)
    ensures
        r == go_local_next(c),
{
    if c & (WRITER_MASK | PREPARING_TO_GO_LOCAL) == 0 {
        Some((c & !GLOBAL_MASK) | PREPARING_TO_GO_LOCAL)
    } else {
        None
    }
}

/// What the reader that moved the lock to local mode writes into the global word when done.
pub open spec fn clear_prep_next(c: u32) -> u32 {
    c & !PREPARING_TO_GO_LOCAL
}

/// Computes `clear_prep_next`.
pub fn plan_clear_prep(c: u32) -> (r: u32)
    ensures
        r == clear_prep_next(c),
{
    c & !PREPARING_TO_GO_LOCAL
}

/// The claim of a writer on a global word that was read as `c`: possible with no writer
/// and no reader moving to local mode. It sets the writer and global flags, and tells
/// whether the local words must be made global (the lock was in local mode) and whether
/// global readers must be waited for.
pub open spec fn write_claim(c: u32) -> Option<(u32, bool, bool)> {
    if c & (PREPARING_TO_GO_LOCAL | WRITER_MASK) == 0 {
        Some((c | WRITER_MASK | GLOBAL_MASK, c & GLOBAL_MASK == 0, c & READER_MASK != 0))
    } else {
        None
    }
}

/// Plans `write_claim`.
pub fn plan_write_claim(c: u32) -> (r: Option<(u32, bool, bool)>)
    ensures
        r == write_claim(c),
{
    if c & (PREPARING_TO_GO_LOCAL | WRITER_MASK) == 0 {
        Some((c | WRITER_MASK | GLOBAL_MASK, c & GLOBAL_MASK == 0, c & READER_MASK != 0))
    } else {
        None
    }
}

/// After the global word was `c` and a global reader left, whether the writer that waits
/// for global readers is the one to wake (instead of all parked threads).
pub open spec fn global_release_wakes_writer(c: u32) -> bool {
    c & WRITER_MASK != 0
}

/// Decides `global_release_wakes_writer`.
pub fn decide_global_release_wakes_writer(c: u32) -> (r: bool)
    ensures
        r == global_release_wakes_writer(c),
{
    c & WRITER_MASK != 0
}

/// A reader may park on the global word while a writer holds or claims the lock,
/// or another reader moves it to local mode.
pub open spec fn read_park_valid(c: u32) -> bool {
    c & (WRITER_MASK | PREPARING_TO_GO_LOCAL) != 0
}

/// Decides `read_park_valid`.
pub fn decide_read_park_valid(c: u32) -> (r: bool)
    ensures
        r == read_park_valid(c),
{
    c & (WRITER_MASK | PREPARING_TO_GO_LOCAL) != 0
}

/// A writer may park on the global word unless it reads as free (`0`, `GLOBAL_MASK`)
/// or as holding a single local-mode reader (`1`).
pub open spec fn write_park_valid(c: u32) -> bool {
    c != 0 && c != GLOBAL_MASK && c != 1
}

/// Decides `write_park_valid`.
pub fn decide_write_park_valid(c: u32) -> (r: bool)
    ensures
        r == write_park_valid(c),
{
    c != 0 && c != GLOBAL_MASK && c != 1
}

// ---------------------------------------------------------------------------
// Threads and local words

/// The local word that a thread uses: its id modulo `LOCK_COUNT`.
pub open spec fn reader_index_of(thread_id: u64) -> nat {
    (thread_id % 8) as nat
}

/// Maps a thread id onto a local word.
pub fn reader_index(thread_id: u64) -> (r: usize)
    ensures
        r == reader_index_of(thread_id),
        r < LOCK_COUNT,
{
    let i = thread_id & 7;
    assert(thread_id & 7 == thread_id % 8) by (bit_vector);
    i as usize
}

/// The `k`-th neighbour of local word `i`, going round the eight words.
pub open spec fn neighbour_of(i: nat, k: nat) -> nat {
    (i + k) % 8
}

/// Computes `neighbour_of`.
pub fn neighbour(i: usize, k: usize) -> (r: usize)
    requires
        i < LOCK_COUNT,
        k < LOCK_COUNT,
    ensures
        r == neighbour_of(i as nat, k as nat),
        r < LOCK_COUNT,
{
    let s = i + k;
    assert(s & 7 == s % 8) by (bit_vector);
    s & (LOCK_MASK as usize)
}

// ---------------------------------------------------------------------------
// Layout facts

/// The constants are the shifts that the layout describes, and the flags are distinct
/// bits above the reader count.
pub proof fn lemma_layout()
    ensures
        READER_MASK == (1u32 << READER_BITS) - 1,
        WRITER_MASK == 1u32 << (READER_BITS + 1),
        PREPARING_TO_GO_LOCAL == 1u32 << (READER_BITS + 2),
        GLOBAL_MASK == 1u32 << (READER_BITS + 4),
        LOCK_COUNT == 1u32 << LOCK_POWER,
        LOCK_MASK == (1u32 << LOCK_POWER) - 1,
        READER_MASK & WRITER_MASK == 0,
        READER_MASK & PREPARING_TO_GO_LOCAL == 0,
        READER_MASK & GLOBAL_MASK == 0,
        WRITER_MASK & PREPARING_TO_GO_LOCAL == 0,
        WRITER_MASK & GLOBAL_MASK == 0,
        PREPARING_TO_GO_LOCAL & GLOBAL_MASK == 0,
{
    assert(0x01ff_ffffu32 == (1u32 << 25u32) - 1) by (bit_vector);
    assert(0x0400_0000u32 == 1u32 << 26u32) by (bit_vector);
    assert(0x0800_0000u32 == 1u32 << 27u32) by (bit_vector);
    assert(0x2000_0000u32 == 1u32 << 29u32) by (bit_vector);
    assert(8u32 == 1u32 << 3u32) by (bit_vector);
    assert(0x01ff_ffffu32 & 0x0400_0000u32 == 0 && 0x01ff_ffffu32 & 0x0800_0000u32 == 0
        && 0x01ff_ffffu32 & 0x2000_0000u32 == 0 && 0x0400_0000u32 & 0x0800_0000u32 == 0
        && 0x0400_0000u32 & 0x2000_0000u32 == 0 && 0x0800_0000u32 & 0x2000_0000u32 == 0)
        by (bit_vector);
}

/// The literal compare-and-swaps of the fast paths are the general updates on the word
/// they expect: a local read on a free local word (`0` to `1`), the reader going local on
/// its global free word (`GLOBAL_MASK` to `1`), a local unlock of the only reader (`1` to
/// `0`), a global unlock of the only reader (`GLOBAL_MASK | 1` to `GLOBAL_MASK`), and a
/// writer's claim of a free global word (`GLOBAL_MASK` to `GLOBAL_MASK | WRITER_MASK`,
/// with nothing to make global and no reader to wait for).
pub proof fn lemma_fast_paths()
    ensures
        local_read_next(0) == Some(1u32),
        deglobalize_next(GLOBAL_MASK) == 1,
        release_next(1) == 0,
        release_next(GLOBAL_MASK | 1) == GLOBAL_MASK,
        write_claim(GLOBAL_MASK) == Some((GLOBAL_MASK | WRITER_MASK, false, false)),
{
    assert(0u32 & GLOBAL_MASK == 0) by (bit_vector);
    assert((GLOBAL_MASK & !GLOBAL_MASK) + 1 == 1) by (bit_vector);
    assert((GLOBAL_MASK | 1) - 1 == GLOBAL_MASK) by (bit_vector);
    assert(GLOBAL_MASK & (PREPARING_TO_GO_LOCAL | WRITER_MASK) == 0 && GLOBAL_MASK | WRITER_MASK
        | GLOBAL_MASK == GLOBAL_MASK | WRITER_MASK && GLOBAL_MASK & GLOBAL_MASK != 0
        && GLOBAL_MASK & READER_MASK == 0) by (bit_vector);
}

/// A word counts readers exactly when its count, the low `READER_BITS` bits, is not zero:
/// `has_readers` is true of every word whose value is not a multiple of `2^READER_BITS`,
/// and false of every word that is.
pub proof fn lemma_has_readers_is_count(c: u32)
    ensures
        has_readers(c) == (c % 0x0200_0000 != 0),
{
    assert(c & 0x01ff_ffff == c % 0x0200_0000) by (bit_vector);
}

/// A local read adds exactly one reader to a local word that is not global, and keeps it
/// local: the count goes up by one and no flag changes.
pub proof fn lemma_local_read_adds_one_reader(c: u32)
    requires
        local_word_wf(c),
        !global_bit(c),
        readers(c) < READER_MASK,
    ensures
        local_read_next(c) is Some,
        readers(local_read_next(c)->0) == readers(c) + 1,
        !global_bit(local_read_next(c)->0),
        local_word_wf(local_read_next(c)->0),
        local_read_next(c)->0 == c + 1,
{
    assert(local_word_wf(c) && !global_bit(c) && readers(c) < READER_MASK ==> c + 1 <= u32::MAX
        && local_word_wf(((c + 1) as u32)) && readers(((c + 1) as u32)) == readers(c) + 1
        && !global_bit(((c + 1) as u32))) by (bit_vector);
}

} // verus!
