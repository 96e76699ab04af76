//! The two-thread protocol, as a small-step model, with the laws the
//! channel is built for.
//!
//! One writer thread and one reader thread share a single block.  Every
//! operation either side performs serializes on one atomic access — the
//! compare-and-exchange of the status word, or the exchange of the
//! disconnect flag — so an execution of the system is an interleaving of
//! atomic steps, and a trace here is exactly such an interleaving.  The
//! model's transitions reuse the very functions of [`crate::status`] that
//! the executable contracts of [`crate::chan`] are stated over:
//! [`publish_word`] for a flush, [`consume_word`] for a read, the
//! exchange-and-test of the disconnect flag for claiming and departing a
//! role.  Slot contents are abstracted to version numbers: version `n` is
//! the `n`-th value the writer finished writing, with version 0 the seed.
//!
//! The laws are stated over *all* traces: any order of publishes, consumes,
//! drops and reconnection attempts, including the interleavings where both
//! sides act at once.  A step that its thread could not take — its handle
//! does not exist, or its own earlier atomic step has not finished — leaves
//! the configuration unchanged, so the quantification over traces is
//! unconditional.

use vstd::prelude::*;

use crate::status::code_of;
use crate::status::consume_word;
use crate::status::fresh_of;
use crate::status::lemma_consume_swaps;
use crate::status::lemma_publish_swaps;
use crate::status::lemma_roles_distinct;
use crate::status::lemma_words_valid;
use crate::status::publish_word;
use crate::status::reader_slot;
use crate::status::storage_slot;
use crate::status::valid_state;
use crate::status::writer_slot;

verus! {

/// One configuration of the whole system: the shared block plus what each
/// side's live handles and in-flight work look like.
pub struct Config {
    /// The shared status word: permutation code plus fresh bit.
    pub state: int,
    /// The shared disconnect flag: true while exactly one role is unoccupied.
    pub unconnected: bool,
    /// Whether the block has been deallocated.
    pub freed: bool,
    /// Number of live writer handles.
    pub writers: nat,
    /// Number of live reader handles.
    pub readers: nat,
    /// True while the writer is mid-mutation of its slot, so that slot's
    /// content is torn.
    pub dirty: bool,
    /// True when a write has completed since the last publish, so the
    /// writer's slot holds the newest completed write.
    pub wrote: bool,
    /// The version held by each of the three slots.
    pub slot_ver: Seq<nat>,
    /// Number of writes the writer has completed.
    pub writes: nat,
    /// The version most recently published by a flush.
    pub last_pub: nat,
    /// The version the reader most recently observed: the one in its slot.
    pub seen: nat,
}

/// One atomic step by one side.
pub enum Event {
    /// The writer starts mutating its slot.
    BeginWrite,
    /// The writer finishes mutating its slot: the slot now holds the next
    /// version, complete.
    EndWrite,
    /// The writer publishes: one compare-and-exchange applies
    /// [`publish_word`] to the status word.
    Flush,
    /// The reader reads: one compare-and-exchange applies [`consume_word`]
    /// to the status word, then the reader takes its (possibly new) slot.
    /// The slot load needs no step of its own: once the exchange is done,
    /// no later publish moves the reader's slot and no writer step touches
    /// it ([`crate::status::lemma_publish_swaps`]), so nothing can change
    /// what the load returns.
    Read,
    /// The writer attempts to attach a replacement reader: one exchange of
    /// the disconnect flag, claiming the vacancy only if the flag was set.
    NewReader,
    /// The reader attempts to attach a replacement writer, symmetrically.
    NewWriter,
    /// The writer handle is dropped: one exchange sets the disconnect flag,
    /// and if it was already set the block is deallocated.
    DropWriter,
    /// The reader handle is dropped, symmetrically.
    DropReader,
}

/// The configuration at construction: one writer, one reader, code 0 with
/// the fresh bit clear, all three slots holding the seed (version 0).
pub open spec fn init() -> Config {
    Config {
        state: 0,
        unconnected: false,
        freed: false,
        writers: 1,
        readers: 1,
        dirty: false,
        wrote: false,
        slot_ver: seq![0nat, 0nat, 0nat],
        writes: 0,
        last_pub: 0,
        seen: 0,
    }
}

/// Whether the thread owning event `e` can take it at `c`: its handle must
/// be live, and a writer-side step cannot begin while the writer's own
/// mutation is unfinished (the handle's exclusive borrow forbids it).
pub open spec fn enabled(c: Config, e: Event) -> bool {
    match e {
        Event::BeginWrite => c.writers == 1 && !c.dirty,
        Event::EndWrite => c.writers == 1 && c.dirty,
        Event::Flush => c.writers == 1 && !c.dirty,
        Event::NewReader => c.writers == 1 && !c.dirty,
        Event::DropWriter => c.writers == 1 && !c.dirty,
        Event::Read => c.readers == 1,
        Event::NewWriter => c.readers == 1,
        Event::DropReader => c.readers == 1,
    }
}

/// The slot a read at `c` takes its value from: the storage slot when a
/// publication is pending (the consume adopts it), the reader's own slot
/// otherwise.
pub open spec fn read_slot(c: Config) -> int {
    if fresh_of(c.state) {
        storage_slot(code_of(c.state))
    } else {
        reader_slot(code_of(c.state))
    }
}

/// The version a read at `c` observes.
pub open spec fn read_view(c: Config) -> nat {
    c.slot_ver[read_slot(c)]
}

/// One atomic step of the system.  An event that is not enabled leaves the
/// configuration unchanged.
pub open spec fn step(c: Config, e: Event) -> Config {
    if !enabled(c, e) {
        c
    } else {
        match e {
            Event::BeginWrite => Config { dirty: true, ..c },
            Event::EndWrite => Config {
                dirty: false,
                wrote: true,
                writes: (c.writes + 1) as nat,
                slot_ver: c.slot_ver.update(
                    writer_slot(code_of(c.state)),
                    (c.writes + 1) as nat,
                ),
                ..c
            },
            Event::Flush => Config {
                state: publish_word(c.state),
                wrote: false,
                last_pub: c.slot_ver[writer_slot(code_of(c.state))],
                ..c
            },
            Event::Read => Config { state: consume_word(c.state), seen: read_view(c), ..c },
            Event::NewReader => if c.unconnected {
                Config { unconnected: false, readers: (c.readers + 1) as nat, ..c }
            } else {
                c
            },
            Event::NewWriter => if c.unconnected {
                Config { unconnected: false, writers: (c.writers + 1) as nat, ..c }
            } else {
                c
            },
            Event::DropWriter => if c.unconnected {
                Config { writers: (c.writers - 1) as nat, freed: true, ..c }
            } else {
                Config { writers: (c.writers - 1) as nat, unconnected: true, ..c }
            },
            Event::DropReader => if c.unconnected {
                Config { readers: (c.readers - 1) as nat, freed: true, ..c }
            } else {
                Config { readers: (c.readers - 1) as nat, unconnected: true, ..c }
            },
        }
    }
}

/// The configuration a trace of steps reaches from construction.
pub open spec fn run(t: Seq<Event>) -> Config
    decreases t.len(),
{
    if t.len() == 0 {
        init()
    } else {
        step(run(t.drop_last()), t.last())
    }
}

/// The configuration a trace of steps reaches from `c`.
pub open spec fn run_from(c: Config, t: Seq<Event>) -> Config
    decreases t.len(),
{
    if t.len() == 0 {
        c
    } else {
        step(run_from(c, t.drop_last()), t.last())
    }
}

/// The inductive invariant of the protocol.
pub open spec fn inv(c: Config) -> bool {
    &&& valid_state(c.state)
    &&& c.slot_ver.len() == 3
    &&& c.writers <= 1
    &&& c.readers <= 1
    &&& (c.freed ==> c.writers == 0 && c.readers == 0 && c.unconnected)
    &&& (!c.freed ==> c.writers + c.readers + (if c.unconnected {
        1int
    } else {
        0int
    }) == 2)
    &&& (c.dirty ==> c.writers == 1)
    &&& (forall|i: int| 0 <= i < 3 ==> c.slot_ver[i] <= c.writes)
    &&& c.last_pub <= c.writes
    &&& c.slot_ver[reader_slot(code_of(c.state))] == c.seen
    &&& (fresh_of(c.state) ==> c.slot_ver[storage_slot(code_of(c.state))] == c.last_pub)
}

/// The invariant holds at construction.
pub proof fn lemma_inv_init()
    ensures
        inv(init()),
{
}

/// Every atomic step preserves the invariant.
pub proof fn lemma_inv_step(c: Config, e: Event)
    requires
        inv(c),
    ensures
        inv(step(c, e)),
{
    lemma_words_valid(c.state);
    lemma_roles_distinct(code_of(c.state));
    match e {
        Event::Flush => {
            lemma_publish_swaps(code_of(c.state));
        },
        Event::Read => {
            lemma_consume_swaps(code_of(c.state));
        },
        _ => {},
    }
}

/// The invariant holds in every reachable configuration.
pub proof fn lemma_inv_run(t: Seq<Event>)
    ensures
        inv(run(t)),
    decreases t.len(),
{
    if t.len() == 0 {
        lemma_inv_init();
    } else {
        lemma_inv_run(t.drop_last());
        lemma_inv_step(run(t.drop_last()), t.last());
    }
}

/// The invariant is preserved along any trace of steps.
pub proof fn lemma_inv_run_from(c: Config, t: Seq<Event>)
    requires
        inv(c),
    ensures
        inv(run_from(c, t)),
    decreases t.len(),
{
    if t.len() > 0 {
        lemma_inv_run_from(c, t.drop_last());
        lemma_inv_step(run_from(c, t.drop_last()), t.last());
    }
}

/// No data race on a slot, in any interleaving: the slot a read takes its
/// value from is never the slot the writer mutates (the only slot any step
/// mutates), the reader's own slot is always disjoint from the writer's,
/// and the version observed is one of a completed write — never a torn
/// value.
pub proof fn law_no_slot_race(t: Seq<Event>)
    ensures
        read_slot(run(t)) != writer_slot(code_of(run(t).state)),
        reader_slot(code_of(run(t).state)) != writer_slot(code_of(run(t).state)),
        read_view(run(t)) <= run(t).writes,
{
    lemma_inv_run(t);
    lemma_roles_distinct(code_of(run(t).state));
}

/// The latest value is never lost: whenever a publication is pending, a
/// read observes exactly the most recently published version, and once the
/// writer goes quiet, every further read keeps returning it.
pub proof fn law_latest_value(t: Seq<Event>)
    requires
        fresh_of(run(t).state),
        run(t).readers == 1,
    ensures
        read_view(run(t)) == run(t).last_pub,
        step(run(t), Event::Read).seen == run(t).last_pub,
{
    lemma_inv_run(t);
}

/// All events of a trace are reads.
pub open spec fn reads_only(t: Seq<Event>) -> bool {
    forall|i: int| 0 <= i < t.len() ==> t[i] is Read
}

/// Convergence: from a configuration with a pending publication, a reader
/// that keeps polling — no matter how many times — settles on the latest
/// published version and never leaves it.
pub proof fn law_convergence(t: Seq<Event>, more: Seq<Event>)
    requires
        fresh_of(run(t).state),
        run(t).readers == 1,
        more.len() >= 1,
        reads_only(more),
    ensures
        run_from(run(t), more).seen == run(t).last_pub,
        run_from(run(t), more).last_pub == run(t).last_pub,
        run_from(run(t), more).readers == run(t).readers,
    decreases more.len(),
{
    lemma_inv_run(t);
    lemma_consume_swaps(code_of(run(t).state));
    if more.len() == 1 {
        assert(more.drop_last().len() == 0);
    } else {
        assert(reads_only(more.drop_last()));
        law_convergence(t, more.drop_last());
        let c = run_from(run(t), more.drop_last());
        lemma_inv_run_from(run(t), more.drop_last());
        lemma_consume_swaps(code_of(c.state));
    }
}

/// Every flush of the trace was preceded by a completed write since the
/// previous flush: the writer publishes new values, never re-publishes its
/// stale scratch slot.
pub open spec fn disciplined(t: Seq<Event>) -> bool {
    forall|i: int| 0 <= i < t.len() && t[i] is Flush ==> run(#[trigger] t.subrange(0, i)).wrote
}

/// The pieces of the invariant that hold along disciplined traces.
pub open spec fn mono_inv(c: Config) -> bool {
    &&& c.seen <= c.last_pub
    &&& (c.wrote ==> c.slot_ver[writer_slot(code_of(c.state))] == c.writes)
}

/// Along a disciplined trace, the reader's cursor never passes the latest
/// publication and the writer's slot holds the newest write when it
/// publishes.
pub proof fn lemma_mono_run(t: Seq<Event>)
    requires
        disciplined(t),
    ensures
        mono_inv(run(t)),
    decreases t.len(),
{
    if t.len() > 0 {
        assert forall|i: int| 0 <= i < t.drop_last().len() && t.drop_last()[i] is Flush implies run(
            #[trigger] t.drop_last().subrange(0, i),
        ).wrote by {
            assert(t.drop_last().subrange(0, i) =~= t.subrange(0, i));
            assert(run(t.subrange(0, i)).wrote);
        }
        lemma_mono_run(t.drop_last());
        lemma_inv_run(t.drop_last());
        let c = run(t.drop_last());
        lemma_words_valid(c.state);
        lemma_roles_distinct(code_of(c.state));
        match t.last() {
            Event::Flush => {
                lemma_publish_swaps(code_of(c.state));
                if enabled(c, Event::Flush) {
                    assert(t.subrange(0, t.len() - 1) =~= t.drop_last());
                    assert(c.wrote);
                }
            },
            Event::Read => {
                lemma_consume_swaps(code_of(c.state));
            },
            _ => {},
        }
    }
}

/// Monotonicity: along any disciplined trace, the version a read observes
/// is never below the version last observed — once the reader has seen the
/// `k`-th publication it can never again be handed an earlier one.
pub proof fn law_monotonic_reads(t: Seq<Event>)
    requires
        disciplined(t),
    ensures
        read_view(run(t)) >= run(t).seen,
        step(run(t), Event::Read).seen >= run(t).seen,
{
    lemma_inv_run(t);
    lemma_mono_run(t);
}

/// At most one live writer handle and at most one live reader handle exist,
/// in every reachable configuration of every trace.
pub proof fn law_single_occupancy(t: Seq<Event>)
    ensures
        run(t).writers <= 1,
        run(t).readers <= 1,
{
    lemma_inv_run(t);
}

/// The fresh bit moves only as the data model demands: it is set only by a
/// publish, and cleared only by a read that actually consumes.
pub proof fn law_fresh_bit_discipline(t: Seq<Event>, e: Event)
    ensures
        !fresh_of(run(t).state) && fresh_of(step(run(t), e).state) ==> e is Flush,
        fresh_of(run(t).state) && !fresh_of(step(run(t), e).state) ==> e is Read,
{
    lemma_inv_run(t);
    lemma_words_valid(run(t).state);
}

/// While the block is alive, the disconnect flag is true exactly when one
/// of the two roles is unoccupied — and at least one role is always
/// occupied, for only the drop of the last handle frees the block.
pub proof fn law_flag_tracks_occupancy(t: Seq<Event>)
    ensures
        !run(t).freed ==> (run(t).unconnected <==> run(t).writers + run(t).readers == 1),
        !run(t).freed ==> run(t).writers + run(t).readers >= 1,
{
    lemma_inv_run(t);
}

/// Once the block is freed no step does anything: both handles are gone, so
/// no operation can run against a freed block, and in particular it can
/// never be freed a second time.
pub proof fn law_free_is_terminal(t: Seq<Event>, e: Event)
    requires
        run(t).freed,
    ensures
        step(run(t), e) == run(t),
{
    lemma_inv_run(t);
}

/// The block is only ever freed by the drop of the last live handle — the
/// step that takes the system from one live handle to none.
pub proof fn law_free_needs_both_gone(t: Seq<Event>, e: Event)
    requires
        !run(t).freed,
        step(run(t), e).freed,
    ensures
        e is DropWriter || e is DropReader,
        run(t).writers + run(t).readers == 1,
        step(run(t), e).writers == 0,
        step(run(t), e).readers == 0,
{
    lemma_inv_run(t);
}

/// Exactly-once deallocation: from any reachable configuration with both
/// handles live and the writer's slot not lent out for mutation (a handle
/// cannot be dropped while a borrow of it is live), dropping the two
/// handles in either order frees the block exactly once — never at the
/// first drop, always at the second.
pub proof fn law_dealloc_exactly_once(t: Seq<Event>)
    requires
        run(t).writers == 1,
        run(t).readers == 1,
        !run(t).dirty,
        !run(t).freed,
    ensures
        !step(run(t), Event::DropWriter).freed,
        step(step(run(t), Event::DropWriter), Event::DropReader).freed,
        !step(run(t), Event::DropReader).freed,
        step(step(run(t), Event::DropReader), Event::DropWriter).freed,
{
    lemma_inv_run(t);
}

/// While both roles are occupied a claim finds no vacancy: attaching a
/// replacement handle fails and changes nothing.
pub proof fn law_claim_fails_when_occupied(t: Seq<Event>)
    requires
        !run(t).unconnected,
    ensures
        step(run(t), Event::NewReader) == run(t),
        step(run(t), Event::NewWriter) == run(t),
{
}

/// Reconnect correctness, reader side: after the reader departs, the block
/// stays alive, the surviving writer's first claim of the vacancy wins, and
/// a second, racing claim fails and changes nothing.
pub proof fn law_reconnect_reader(t: Seq<Event>)
    requires
        run(t).writers == 1,
        run(t).readers == 1,
        !run(t).dirty,
        !run(t).freed,
    ensures
        !step(run(t), Event::DropReader).freed,
        step(run(t), Event::DropReader).unconnected,
        step(step(run(t), Event::DropReader), Event::NewReader).readers == 1,
        !step(step(run(t), Event::DropReader), Event::NewReader).unconnected,
        step(step(step(run(t), Event::DropReader), Event::NewReader), Event::NewReader) == step(
            step(run(t), Event::DropReader),
            Event::NewReader,
        ),
{
    lemma_inv_run(t);
}

/// Reconnect correctness, writer side: the mirror image of
/// [`law_reconnect_reader`].
pub proof fn law_reconnect_writer(t: Seq<Event>)
    requires
        run(t).writers == 1,
        run(t).readers == 1,
        !run(t).dirty,
        !run(t).freed,
    ensures
        !step(run(t), Event::DropWriter).freed,
        step(run(t), Event::DropWriter).unconnected,
        step(step(run(t), Event::DropWriter), Event::NewWriter).writers == 1,
        !step(step(run(t), Event::DropWriter), Event::NewWriter).unconnected,
        step(step(step(run(t), Event::DropWriter), Event::NewWriter), Event::NewWriter) == step(
            step(run(t), Event::DropWriter),
            Event::NewWriter,
        ),
{
    lemma_inv_run(t);
}

} // verus!
