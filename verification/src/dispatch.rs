use vstd::prelude::*;

use crate::event::Event;

verus! {

/// Upper bound on the number of records delivered in one batch.
pub const PROCESS_MAX: usize = 128;

/// How many records the dispatcher drains in one cycle: everything that is
/// queued right now, capped at `PROCESS_MAX`.
pub open spec fn spec_drain_cap(queue_len: nat) -> nat {
    if queue_len < PROCESS_MAX { queue_len } else { PROCESS_MAX as nat }
}

/// Computes the cap for the coming drain cycle from the current queue length.
/// A cap of zero means nothing is queued and the cycle is skipped.
pub fn drain_cap(queue_len: usize) -> (cap: usize)
    ensures
        cap == spec_drain_cap(queue_len as nat),
{
    if queue_len < PROCESS_MAX {
        queue_len
    } else {
        PROCESS_MAX
    }
}

/// Whether the dispatcher should sit in its idle wait before draining:
/// only when nothing is queued yet. Queued records skip the wait entirely.
pub fn should_wait(queue_len: usize) -> (wait: bool)
    ensures
        wait == (queue_len == 0),
{
    queue_len == 0
}

/// Whether the dispatcher's loop is over: every producer handle is gone and
/// nothing is left to drain. Records still queued after closure are delivered
/// first — the loop exits cleanly only once the channel is empty.
pub fn should_exit(queue_len: usize, closed: bool) -> (exit: bool)
    ensures
        exit == (queue_len == 0 && closed),
{
    queue_len == 0 && closed
}

/// What the dispatcher does once a delivery cycle ends.
#[derive(PartialEq, Eq, Structural, Debug)]
pub enum CycleEnd {
    /// The cycle drained as many records as the cap allowed, so a backlog may
    /// remain: drain again at once, without waiting for the idle timer.
    DrainAgain,
    /// The cycle drained fewer records than the cap: the queue is empty, so
    /// return to the idle wait.
    BackToIdle,
}

/// Decides, after one cycle, whether to drain again immediately or go idle.
/// The delivery outcome plays no part: a failed batch is dropped, never
/// retried, and the loop continues either way.
pub fn after_cycle(processed: usize, cap: usize) -> (next: CycleEnd)
    ensures
        processed == cap ==> next == CycleEnd::DrainAgain,
        processed != cap ==> next == CycleEnd::BackToIdle,
{
    if processed == cap {
        CycleEnd::DrainAgain
    } else {
        CycleEnd::BackToIdle
    }
}

/// How a queue of records is split into delivery batches when the dispatcher
/// drains it to exhaustion: repeatedly take the first `spec_drain_cap` records.
pub open spec fn drain_batches(records: Seq<Event>) -> Seq<Seq<Event>>
    decreases records.len(),
{
    if records.len() == 0 {
        Seq::empty()
    } else {
        let k = spec_drain_cap(records.len()) as int;
        seq![records.take(k)] + drain_batches(records.skip(k))
    }
}

/// A burst of at most `PROCESS_MAX` records is delivered as exactly one
/// batch, holding all of them in their enqueue order.
pub proof fn lemma_single_batch(records: Seq<Event>)
    requires
        0 < records.len() <= PROCESS_MAX,
    ensures
        drain_batches(records) =~= seq![records],
{
    let k = spec_drain_cap(records.len()) as int;
    assert(drain_batches(records) == seq![records.take(k)] + drain_batches(records.skip(k)));
    assert(records.take(k) =~= records);
    assert(records.skip(k) =~= Seq::empty());
    assert(drain_batches(Seq::<Event>::empty()) == Seq::<Seq<Event>>::empty());
}

/// Every batch of a drained burst is non-empty and holds at most
/// `PROCESS_MAX` records.
pub proof fn lemma_batches_bounded(records: Seq<Event>)
    ensures
        forall|i: int|
            0 <= i < drain_batches(records).len() ==> 0 < #[trigger] drain_batches(records)[i].len()
                <= PROCESS_MAX,
    decreases records.len(),
{
    if records.len() > 0 {
        let k = spec_drain_cap(records.len()) as int;
        lemma_batches_bounded(records.skip(k));
        let bs = drain_batches(records);
        assert(bs == seq![records.take(k)] + drain_batches(records.skip(k)));
        assert(bs[0] == records.take(k));
        assert(forall|i: int|
            1 <= i < bs.len() ==> bs[i] == #[trigger] drain_batches(records.skip(k))[i - 1]);
    }
}

/// Concatenating the batches of a drained burst gives back the enqueued
/// records in their original order: nothing is lost, duplicated or reordered.
pub proof fn lemma_batches_concat(records: Seq<Event>)
    ensures
        drain_batches(records).flatten() =~= records,
    decreases records.len(),
{
    if records.len() > 0 {
        let k = spec_drain_cap(records.len()) as int;
        lemma_batches_concat(records.skip(k));
        let bs = drain_batches(records);
        assert(bs.first() == records.take(k));
        assert(bs.drop_first() =~= drain_batches(records.skip(k)));
        assert(records.take(k) + records.skip(k) =~= records);
    }
}

/// Within and across the batches of a drained burst, every record keeps its
/// place: record `j` of batch `i` is the record enqueued at position
/// `i * PROCESS_MAX + j`.
pub proof fn lemma_batch_positions(records: Seq<Event>, i: int, j: int)
    requires
        0 <= i < drain_batches(records).len(),
        0 <= j < drain_batches(records)[i].len(),
    ensures
        i * PROCESS_MAX + j < records.len(),
        drain_batches(records)[i][j] == records[i * PROCESS_MAX + j],
    decreases records.len(),
{
    let m = PROCESS_MAX as int;
    let k = spec_drain_cap(records.len()) as int;
    let bs = drain_batches(records);
    assert(records.len() > 0);
    assert(bs == seq![records.take(k)] + drain_batches(records.skip(k)));
    if i == 0 {
        assert(bs[0] == records.take(k));
        assert(bs[0][j] == records[j]);
    } else {
        if records.len() <= PROCESS_MAX {
            assert(records.skip(k) =~= Seq::empty());
            assert(drain_batches(Seq::<Event>::empty()) == Seq::<Seq<Event>>::empty());
            assert(bs.len() == 1);
        }
        assert(k == m);
        assert(bs[i] == drain_batches(records.skip(k))[i - 1]);
        lemma_batch_positions(records.skip(k), i - 1, j);
        assert(records.skip(k)[(i - 1) * m + j] == records[k + (i - 1) * m + j]);
        assert((i - 1) * m + m == i * m) by (nonlinear_arith);
    }
}

/// A burst of `n` records is delivered across exactly
/// `ceil(n / PROCESS_MAX)` batches.
pub proof fn lemma_batches_count(records: Seq<Event>)
    ensures
        drain_batches(records).len() == (records.len() + PROCESS_MAX - 1) / (PROCESS_MAX as int),
    decreases records.len(),
{
    let n = records.len() as int;
    let m = PROCESS_MAX as int;
    if records.len() == 0 {
        assert((0 + m - 1) / m == 0);
    } else if records.len() <= PROCESS_MAX {
        let k = spec_drain_cap(records.len()) as int;
        assert(drain_batches(records) == seq![records.take(k)] + drain_batches(records.skip(k)));
        assert(records.skip(k) =~= Seq::empty());
        assert(drain_batches(Seq::<Event>::empty()) == Seq::<Seq<Event>>::empty());
        assert((n + m - 1) / m == 1) by {
            vstd::arithmetic::div_mod::lemma_div_plus_one(n - 1, m);
            vstd::arithmetic::div_mod::lemma_basic_div(n - 1, m);
        }
    } else {
        lemma_batches_count(records.skip(m));
        assert(drain_batches(records) == seq![records.take(m)] + drain_batches(records.skip(m)));
        assert((n - m + m - 1) / m + 1 == (n + m - 1) / m) by {
            vstd::arithmetic::div_mod::lemma_div_plus_one(n - 1, m);
        }
    }
}

/// Removes the records of the coming batch from the front of the queue:
/// the first `spec_drain_cap(len)` records, in order.
pub fn drain_step(queue: &mut Vec<Event>) -> (batch: Vec<Event>)
    ensures
        batch@ == old(queue)@.take(spec_drain_cap(old(queue)@.len()) as int),
        final(queue)@ == old(queue)@.skip(spec_drain_cap(old(queue)@.len()) as int),
        batch@.len() == spec_drain_cap(old(queue)@.len()),
{
    let cap = drain_cap(queue.len());
    let mut batch: Vec<Event> = Vec::new();
    let mut i: usize = 0;
    while i < cap
        invariant
            i <= cap,
            cap == spec_drain_cap(old(queue)@.len()),
            cap <= old(queue)@.len(),
            batch@ == old(queue)@.take(i as int),
            queue@ == old(queue)@.skip(i as int),
        decreases cap - i,
    {
        let record = queue.remove(0);
        batch.push(record);
        i = i + 1;
        proof {
            assert(batch@ =~= old(queue)@.take(i as int));
            assert(queue@ =~= old(queue)@.skip(i as int));
        }
    }
    batch
}

/// Drains the whole queue into successive batches, exactly as the dispatcher's
/// back-to-back cycles do after a burst: each batch takes the first
/// `spec_drain_cap` records of what remains, until nothing is left.
pub fn collect_batches(queue: &mut Vec<Event>) -> (batches: Vec<Vec<Event>>)
    ensures
        batches@.map_values(|b: Vec<Event>| b@) == drain_batches(old(queue)@),
        final(queue)@.len() == 0,
{
    let mut batches: Vec<Vec<Event>> = Vec::new();
    while queue.len() > 0
        invariant
            batches@.map_values(|b: Vec<Event>| b@) + drain_batches(queue@) == drain_batches(
                old(queue)@,
            ),
        decreases queue@.len(),
    {
        let ghost before = queue@;
        let batch = drain_step(queue);
        batches.push(batch);
        proof {
            assert(drain_batches(before) == seq![before.take(
                spec_drain_cap(before.len()) as int,
            )] + drain_batches(queue@));
            assert(batches@.map_values(|b: Vec<Event>| b@) =~= batches@.drop_last().map_values(
                |b: Vec<Event>| b@,
            ).push(batch@));
        }
    }
    proof {
        assert(batches@.map_values(|b: Vec<Event>| b@) + drain_batches(queue@) =~= batches@.map_values(
            |b: Vec<Event>| b@,
        ));
    }
    batches
}

} // verus!
