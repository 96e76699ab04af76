//! The channel block and its two handles.
//!
//! A [`Cupchan`] block holds three slots for the payload, the status word of
//! [`crate::status`], and the shared disconnect flag.  A [`CupchanWriter`]
//! mutates its owned slot and publishes it with [`CupchanWriter::flush`]; a
//! [`CupchanReader`] adopts the freshest publication on every
//! [`CupchanReader::read`].  Handles carry no payload of their own — the
//! writer caches only the index of its owned slot, exactly the cache the
//! block's status word would reproduce — so every operation takes the block
//! it acts on, and its contract pins the new block state as a function of
//! the old one.
//!
//! The block's ghost history records the seed followed by every published
//! value in order, and the ghost cursor marks which entry the reader
//! currently holds.  Well-formedness ties both to the slots: the reader's
//! slot holds the entry under the cursor, and while the fresh bit is set the
//! storage slot holds the newest entry.  Every operation preserves it, which
//! is what makes `read`'s contract — never a torn value, never an older
//! entry than one already seen — provable.
//!
//! Dropping a handle is the one decision the embedding must act on: the
//! block lives outside any single owner, so [`CupchanWriter::disconnect`]
//! and [`CupchanReader::disconnect`] return whether the departing side was
//! the last one standing and the block must now be reclaimed.

use vstd::prelude::*;

use crate::status::code_of;
use crate::status::consume_word;
use crate::status::fresh_of;
use crate::status::lemma_consume_swaps;
use crate::status::lemma_publish_swaps;
use crate::status::lemma_roles_distinct;
use crate::status::lemma_words_valid;
use crate::status::publish_word;
use crate::status::reader_cup_of_state;
use crate::status::reader_next_state;
use crate::status::reader_slot;
use crate::status::storage_slot;
use crate::status::valid_state;
use crate::status::writer_cup_of_state;
use crate::status::writer_next_state;
use crate::status::writer_slot;

verus! {

/// The shared channel block: three payload slots, the status word that
/// assigns them their roles, and the disconnect flag meaning "the opposite
/// role is currently unoccupied".
pub struct Cupchan<T> {
    /// Slot 0.
    pub cup0: T,
    /// Slot 1.
    pub cup1: T,
    /// Slot 2.
    pub cup2: T,
    /// Permutation code plus fresh bit; always one of the twelve values of
    /// [`valid_state`].
    pub state: usize,
    /// True while exactly one of the two roles has no live handle.
    pub unconnected: bool,
    /// Ghost history: the seed value, then every published value in order.
    pub log: Ghost<Seq<T>>,
    /// Ghost cursor: the index into the history the reader currently holds.
    pub seen: Ghost<int>,
}

impl<T> Cupchan<T> {
    /// The content of slot `i`.
    pub open spec fn cup(self, i: int) -> T {
        if i == 0 {
            self.cup0
        } else if i == 1 {
            self.cup1
        } else {
            self.cup2
        }
    }

    /// The permutation code held in the status word.
    pub open spec fn code(self) -> int {
        code_of(self.state as int)
    }

    /// Whether the status word says storage holds an unadopted publication.
    pub open spec fn fresh(self) -> bool {
        fresh_of(self.state as int)
    }

    /// Well-formedness: the status word is valid, the reader's slot holds
    /// the history entry under the cursor, and while the fresh bit is set
    /// the storage slot holds the newest publication.
    pub open spec fn wf(self) -> bool {
        &&& valid_state(self.state as int)
        &&& self.log@.len() >= 1
        &&& 0 <= self.seen@ < self.log@.len()
        &&& self.cup(reader_slot(self.code())) == self.log@[self.seen@]
        &&& (self.fresh() ==> self.cup(storage_slot(self.code())) == self.log@.last())
    }

    /// Overwrite slot `i`, leaving every other part of the block unchanged.
    fn set_cup(&mut self, i: usize, value: T)
        requires
            i < 3,
        ensures
            final(self).cup(i as int) == value,
            forall|j: int| 0 <= j < 3 && j != i as int ==> final(self).cup(j) == old(self).cup(j),
            final(self).state == old(self).state,
            final(self).unconnected == old(self).unconnected,
            final(self).log == old(self).log,
            final(self).seen == old(self).seen,
    {
        match i {
            0 => self.cup0 = value,
            1 => self.cup1 = value,
            _ => self.cup2 = value,
        }
    }

    /// Borrow slot `i`.
    fn cup_ref(&self, i: usize) -> (r: &T)
        requires
            i < 3,
        ensures
            *r == self.cup(i as int),
    {
        match i {
            0 => &self.cup0,
            1 => &self.cup1,
            _ => &self.cup2,
        }
    }
}

/// The writing half: owns one slot for mutation and publishes it on
/// [`CupchanWriter::flush`].
pub struct CupchanWriter {
    /// Cached index of the writer-owned slot; always the slot the block's
    /// status word assigns to the writer.
    pub current_cup: usize,
}

/// The reading half: adopts the freshest published slot on every
/// [`CupchanReader::read`].
pub struct CupchanReader {}

/// Create a channel seeded with clones of `initial` in all three slots,
/// in the starting configuration: writer owns slot 0, storage is slot 1,
/// the reader owns slot 2 (which holds `initial` itself), nothing fresh,
/// both roles occupied.
pub fn cupchan<T: Clone>(initial: T) -> (r: (Cupchan<T>, CupchanWriter, CupchanReader))
    ensures
        r.0.wf(),
        r.0.state == 0,
        !r.0.unconnected,
        r.1.ok(r.0),
        cloned(initial, r.0.cup0),
        cloned(initial, r.0.cup1),
        r.0.cup2 == initial,
        r.0.log@ =~= seq![initial],
        r.0.seen@ == 0,
{
    let ghost history: Seq<T> = seq![initial];
    let cup0 = initial.clone();
    let cup1 = initial.clone();
    let chan = Cupchan {
        cup0,
        cup1,
        cup2: initial,
        state: 0,
        unconnected: false,
        log: Ghost(history),
        seen: Ghost(0int),
    };
    (chan, CupchanWriter { current_cup: 0 }, CupchanReader {  })
}

impl CupchanWriter {
    /// The handle agrees with the block: its cached slot index is the slot
    /// the status word assigns to the writer.
    pub open spec fn ok<T>(self, chan: Cupchan<T>) -> bool {
        self.current_cup as int == writer_slot(chan.code())
    }

    /// Replace the content of the writer-owned slot.  Nothing else moves:
    /// the publication only happens on [`CupchanWriter::flush`].
    pub fn write<T>(&mut self, chan: &mut Cupchan<T>, value: T)
        requires
            old(chan).wf(),
            old(self).ok(*old(chan)),
        ensures
            final(chan).wf(),
            final(self).ok(*final(chan)),
            *final(self) == *old(self),
            final(chan).cup(writer_slot(old(chan).code())) == value,
            forall|j: int|
                0 <= j < 3 && j != writer_slot(old(chan).code()) ==> final(chan).cup(j) == old(
                    chan,
                ).cup(j),
            final(chan).state == old(chan).state,
            final(chan).unconnected == old(chan).unconnected,
            final(chan).log == old(chan).log,
            final(chan).seen == old(chan).seen,
    {
        proof {
            lemma_roles_distinct(chan.code());
        }
        chan.set_cup(self.current_cup, value);
    }

    /// Publish the writer-owned slot: exchange the writer and storage roles
    /// and set the fresh bit, all in one update of the status word.  The
    /// just-filled slot becomes storage — the newest entry of the history —
    /// and the old storage slot becomes the writer's new scratch space.
    pub fn flush<T>(&mut self, chan: &mut Cupchan<T>)
        requires
            old(chan).wf(),
            old(self).ok(*old(chan)),
        ensures
            final(chan).wf(),
            final(self).ok(*final(chan)),
            final(chan).state as int == publish_word(old(chan).state as int),
            final(chan).fresh(),
            final(chan).log@ =~= old(chan).log@.push(
                old(chan).cup(writer_slot(old(chan).code())),
            ),
            final(chan).cup(storage_slot(final(chan).code())) == old(chan).cup(
                writer_slot(old(chan).code()),
            ),
            final(chan).seen == old(chan).seen,
            final(chan).unconnected == old(chan).unconnected,
            forall|j: int| 0 <= j < 3 ==> final(chan).cup(j) == old(chan).cup(j),
    {
        proof {
            lemma_words_valid(chan.state as int);
            lemma_publish_swaps(chan.code());
            lemma_roles_distinct(chan.code());
        }
        let ghost published = chan.cup(writer_slot(chan.code()));
        let next = writer_next_state(chan.state);
        chan.state = next;
        chan.log = Ghost(chan.log@.push(published));
        self.current_cup = writer_cup_of_state(next);
    }

    /// Attach a replacement reader.  The single exchange of the disconnect
    /// flag claims the vacancy: it succeeds exactly when the flag said the
    /// opposite role was unoccupied, so of two racing claimants at most one
    /// can win.
    pub fn new_reader<T>(&self, chan: &mut Cupchan<T>) -> (r: Option<CupchanReader>)
        requires
            old(chan).wf(),
        ensures
            final(chan).wf(),
            r is Some <==> old(chan).unconnected,
            !final(chan).unconnected,
            final(chan).state == old(chan).state,
            final(chan).log == old(chan).log,
            final(chan).seen == old(chan).seen,
            forall|j: int| 0 <= j < 3 ==> final(chan).cup(j) == old(chan).cup(j),
    {
        let was_unconnected = chan.unconnected;
        chan.unconnected = false;
        if was_unconnected {
            Some(CupchanReader {  })
        } else {
            None
        }
    }

    /// Depart the writer role: mark it unoccupied through the single
    /// exchange of the disconnect flag.  Returns true exactly when the
    /// reader role was already unoccupied — this handle was the last one
    /// standing, and the caller must now reclaim the block.
    pub fn disconnect<T>(self, chan: &mut Cupchan<T>) -> (last: bool)
        requires
            old(chan).wf(),
        ensures
            final(chan).wf(),
            last == old(chan).unconnected,
            final(chan).unconnected,
            final(chan).state == old(chan).state,
            final(chan).log == old(chan).log,
            final(chan).seen == old(chan).seen,
            forall|j: int| 0 <= j < 3 ==> final(chan).cup(j) == old(chan).cup(j),
    {
        let was_unconnected = chan.unconnected;
        chan.unconnected = true;
        was_unconnected
    }
}

impl CupchanReader {
    /// Adopt the freshest publication, then borrow the reader-owned slot.
    ///
    /// When the fresh bit is set, one update of the status word exchanges
    /// the reader and storage roles and clears the bit, so the borrow is of
    /// the newest history entry; otherwise nothing moves and the borrow
    /// repeats the entry already held.  Either way the cursor never goes
    /// backwards: a value once seen is never followed by an older one.
    pub fn read<'a, T>(&self, chan: &'a mut Cupchan<T>) -> (r: &'a T)
        requires
            old(chan).wf(),
        ensures
            final(chan).wf(),
            final(chan).state as int == consume_word(old(chan).state as int),
            !final(chan).fresh(),
            *r == final(chan).cup(reader_slot(final(chan).code())),
            *r == final(chan).log@[final(chan).seen@],
            old(chan).fresh() ==> *r == old(chan).log@.last() && final(chan).seen@ == old(
                chan,
            ).log@.len() - 1,
            !old(chan).fresh() ==> final(chan).seen == old(chan).seen && *r == old(
                chan,
            ).log@[old(chan).seen@],
            final(chan).seen@ >= old(chan).seen@,
            final(chan).log == old(chan).log,
            final(chan).unconnected == old(chan).unconnected,
            forall|j: int| 0 <= j < 3 ==> final(chan).cup(j) == old(chan).cup(j),
    {
        proof {
            lemma_words_valid(chan.state as int);
            lemma_consume_swaps(chan.code());
            lemma_roles_distinct(chan.code());
        }
        chan.seen = Ghost(
            if chan.fresh() {
                chan.log@.len() - 1
            } else {
                chan.seen@
            },
        );
        let next = reader_next_state(chan.state);
        chan.state = next;
        let cup = reader_cup_of_state(next);
        chan.cup_ref(cup)
    }

    /// Attach a replacement writer, the mirror image of
    /// [`CupchanWriter::new_reader`]: the single exchange of the disconnect
    /// flag claims the vacancy, and the new handle caches the slot the
    /// status word currently assigns to the writer.
    pub fn new_writer<T>(&self, chan: &mut Cupchan<T>) -> (r: Option<CupchanWriter>)
        requires
            old(chan).wf(),
        ensures
            final(chan).wf(),
            r is Some <==> old(chan).unconnected,
            (r matches Some(w) ==> w.ok(*final(chan))),
            !final(chan).unconnected,
            final(chan).state == old(chan).state,
            final(chan).log == old(chan).log,
            final(chan).seen == old(chan).seen,
            forall|j: int| 0 <= j < 3 ==> final(chan).cup(j) == old(chan).cup(j),
    {
        let was_unconnected = chan.unconnected;
        chan.unconnected = false;
        if was_unconnected {
            Some(CupchanWriter { current_cup: writer_cup_of_state(chan.state) })
        } else {
            None
        }
    }

    /// Depart the reader role, the mirror image of
    /// [`CupchanWriter::disconnect`]: returns true exactly when the writer
    /// role was already unoccupied and the caller must reclaim the block.
    pub fn disconnect<T>(self, chan: &mut Cupchan<T>) -> (last: bool)
        requires
            old(chan).wf(),
        ensures
            final(chan).wf(),
            last == old(chan).unconnected,
            final(chan).unconnected,
            final(chan).state == old(chan).state,
            final(chan).log == old(chan).log,
            final(chan).seen == old(chan).seen,
            forall|j: int| 0 <= j < 3 ==> final(chan).cup(j) == old(chan).cup(j),
    {
        let was_unconnected = chan.unconnected;
        chan.unconnected = true;
        was_unconnected
    }
}

} // verus!
