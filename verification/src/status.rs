//! The role-permutation machine behind the channel.
//!
//! Three slots hold copies of the payload; at every instant one slot is
//! writer-owned, one is reader-owned, and one is intermediate storage.  The
//! assignment of roles to slots is one of the six bijections, named by a
//! permutation code in `0..6`.  The whole shared state is packed into a
//! single status word: the code, plus a fresh bit meaning "storage holds a
//! publication the reader has not yet adopted".  A publish exchanges the
//! writer and storage roles and sets the fresh bit; a consume exchanges the
//! reader and storage roles and clears it, and only happens when the bit is
//! set.  Because each transition is one atomic exchange of the whole word,
//! and because a publish never moves the reader's role while a consume never
//! moves the writer's, the two sides can race on the word without ever
//! racing on a slot.

use vstd::prelude::*;

verus! {

/// The permutation codes: one per bijection of the three roles onto the
/// three slots.
pub open spec fn valid_code(c: int) -> bool {
    0 <= c < 6
}

/// The slot the writer currently owns under code `c`.
pub open spec fn writer_slot(c: int) -> int {
    if c == 0 || c == 1 {
        0
    } else if c == 3 || c == 5 {
        1
    } else {
        2
    }
}

/// The slot the reader currently owns under code `c`.
pub open spec fn reader_slot(c: int) -> int {
    if c == 4 || c == 5 {
        0
    } else if c == 1 || c == 2 {
        1
    } else {
        2
    }
}

/// The slot currently playing intermediate storage under code `c`.
pub open spec fn storage_slot(c: int) -> int {
    if c == 2 || c == 3 {
        0
    } else if c == 0 || c == 4 {
        1
    } else {
        2
    }
}

/// The code after a publish: the writer and storage roles exchange slots,
/// the reader's slot stays put.
pub open spec fn publish_code(c: int) -> int {
    if c < 4 {
        3 - c
    } else {
        9 - c
    }
}

/// The code after a consume: the reader and storage roles exchange slots,
/// the writer's slot stays put.
pub open spec fn consume_code(c: int) -> int {
    if c < 2 {
        1 - c
    } else if c < 4 {
        c + 2
    } else {
        c - 2
    }
}

/// The status word packs the fresh bit (weight 8) above the permutation
/// code, so its twelve values are `0..6` and `8..14`.
pub open spec fn valid_state(s: int) -> bool {
    (0 <= s < 6) || (8 <= s < 14)
}

/// The permutation code held in status word `s`.
pub open spec fn code_of(s: int) -> int {
    if s >= 8 {
        s - 8
    } else {
        s
    }
}

/// Whether status word `s` has the fresh bit set.
pub open spec fn fresh_of(s: int) -> bool {
    s >= 8
}

/// The status word after a publish: the writer/storage exchange, with the
/// fresh bit set whether or not the previous publication was consumed.
pub open spec fn publish_word(s: int) -> int {
    8 + publish_code(code_of(s))
}

/// The status word after the reader's transition: when the fresh bit is set,
/// the reader/storage exchange and the bit clears; otherwise nothing moves.
pub open spec fn consume_word(s: int) -> int {
    if fresh_of(s) {
        consume_code(code_of(s))
    } else {
        s
    }
}

/// The three roles are a bijection onto the three slots: no slot is ever
/// unowned or doubly owned.
pub proof fn lemma_roles_distinct(c: int)
    requires
        valid_code(c),
    ensures
        0 <= writer_slot(c) < 3,
        0 <= reader_slot(c) < 3,
        0 <= storage_slot(c) < 3,
        writer_slot(c) != reader_slot(c),
        writer_slot(c) != storage_slot(c),
        reader_slot(c) != storage_slot(c),
{
}

/// A publish exchanges exactly the writer and storage slots and never moves
/// the reader's slot, so it cannot interfere with a concurrent consume.
pub proof fn lemma_publish_swaps(c: int)
    requires
        valid_code(c),
    ensures
        valid_code(publish_code(c)),
        writer_slot(publish_code(c)) == storage_slot(c),
        storage_slot(publish_code(c)) == writer_slot(c),
        reader_slot(publish_code(c)) == reader_slot(c),
{
}

/// A consume exchanges exactly the reader and storage slots and never moves
/// the writer's slot, so it cannot interfere with a concurrent publish.
pub proof fn lemma_consume_swaps(c: int)
    requires
        valid_code(c),
    ensures
        valid_code(consume_code(c)),
        reader_slot(consume_code(c)) == storage_slot(c),
        storage_slot(consume_code(c)) == reader_slot(c),
        writer_slot(consume_code(c)) == writer_slot(c),
{
}

/// Both transitions keep the status word inside its twelve valid values.
pub proof fn lemma_words_valid(s: int)
    requires
        valid_state(s),
    ensures
        valid_state(publish_word(s)),
        valid_state(consume_word(s)),
        valid_code(code_of(s)),
        code_of(publish_word(s)) == publish_code(code_of(s)),
        fresh_of(publish_word(s)),
        code_of(consume_word(s)) == (if fresh_of(s) {
            consume_code(code_of(s))
        } else {
            code_of(s)
        }),
        !fresh_of(consume_word(s)),
{
}

/// Whether `state` is one of the twelve values the protocol can produce.
pub fn is_valid_state(state: usize) -> (r: bool)
    ensures
        r == valid_state(state as int),
{
    state < 6 || (8 <= state && state < 14)
}

/// The status word after the writer publishes its slot.
pub fn writer_next_state(state: usize) -> (r: usize)
    requires
        valid_state(state as int),
    ensures
        r as int == publish_word(state as int),
{
    match state {
        0 => 11,
        1 => 10,
        2 => 9,
        3 => 8,
        4 => 13,
        5 => 12,
        8 => 11,
        9 => 10,
        10 => 9,
        11 => 8,
        12 => 13,
        _ => 12,
    }
}

/// The status word after the reader's transition: a consume when the fresh
/// bit is set, the word unchanged otherwise.
pub fn reader_next_state(state: usize) -> (r: usize)
    requires
        valid_state(state as int),
    ensures
        r as int == consume_word(state as int),
{
    match state {
        8 => 1,
        9 => 0,
        10 => 4,
        11 => 5,
        12 => 2,
        13 => 3,
        _ => state,
    }
}

/// The index of the slot the writer owns under status word `state`.
pub fn writer_cup_of_state(state: usize) -> (r: usize)
    requires
        valid_state(state as int),
    ensures
        r as int == writer_slot(code_of(state as int)),
{
    match state {
        0 | 1 | 8 | 9 => 0,
        3 | 5 | 11 | 13 => 1,
        _ => 2,
    }
}

/// The index of the slot the reader owns under status word `state`.
pub fn reader_cup_of_state(state: usize) -> (r: usize)
    requires
        valid_state(state as int),
    ensures
        r as int == reader_slot(code_of(state as int)),
{
    match state {
        4 | 5 | 12 | 13 => 0,
        1 | 2 | 9 | 10 => 1,
        _ => 2,
    }
}

} // verus!
