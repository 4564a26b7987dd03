use vstd::prelude::*;

verus! {

/// What the persistence writer does with a snapshot it has just received.
#[derive(Debug)]
pub enum WriterStep<T> {
    /// Nothing newer is waiting: the snapshot ends the current burst and is written.
    Persist(T),
    /// A newer snapshot is already waiting: this one is dropped unwritten.
    Skip,
}

/// The writer's decision for one received snapshot, given whether the queue behind
/// it was empty when it looked.
pub fn on_snapshot<T>(snapshot: T, queue_empty: bool) -> (r: WriterStep<T>)
    ensures
        queue_empty ==> r == WriterStep::Persist(snapshot),
        !queue_empty ==> r == WriterStep::<T>::Skip,
{
    if queue_empty {
        WriterStep::Persist(snapshot)
    } else {
        WriterStep::Skip
    }
}

/// The snapshots that the writer writes, in order, when it receives `events[i].0`
/// and then finds the queue empty exactly when `events[i].1` holds.
pub open spec fn written<T>(events: Seq<(T, bool)>) -> Seq<T>
    decreases events.len(),
{
    if events.len() == 0 {
        Seq::empty()
    } else {
        let before = written(events.drop_last());
        if events.last().1 {
            before.push(events.last().0)
        } else {
            before
        }
    }
}

/// Every snapshot that the writer writes is one that it received.
pub proof fn lemma_written_were_received<T>(events: Seq<(T, bool)>)
    ensures
        forall|k: int|
            0 <= k < written(events).len() ==> exists|i: int|
                0 <= i < events.len() && #[trigger] written(events)[k] == events[i].0,
    decreases events.len(),
{
    if events.len() > 0 {
        let rest = events.drop_last();
        lemma_written_were_received(rest);
        assert forall|k: int| 0 <= k < written(events).len() implies exists|i: int|
            0 <= i < events.len() && #[trigger] written(events)[k] == events[i].0 by {
            if k < written(rest).len() {
                let i = choose|i: int| 0 <= i < rest.len() && written(rest)[k] == rest[i].0;
                assert(events[i] == rest[i]);
            } else {
                assert(written(events)[k] == events[events.len() - 1].0);
            }
        }
    }
}

/// Burst coalescing: once the last snapshot of a burst has been received and the
/// queue seen empty, the last thing written is that final snapshot, and nothing
/// written was ever a snapshot that was not sent. When the whole burst was queued
/// before the writer looked (the queue was non-empty after every snapshot but the
/// last), the final snapshot is the only one written.
pub proof fn lemma_burst_coalescing<T>(events: Seq<(T, bool)>)
    requires
        events.len() > 0,
        events.last().1,
    ensures
        written(events).len() > 0,
        written(events).last() == events.last().0,
        forall|k: int|
            0 <= k < written(events).len() ==> exists|i: int|
                0 <= i < events.len() && #[trigger] written(events)[k] == events[i].0,
        (forall|i: int| 0 <= i < events.len() - 1 ==> !(#[trigger] events[i]).1) ==> written(events)
            == seq![events.last().0],
{
    lemma_written_were_received(events);
    if forall|i: int| 0 <= i < events.len() - 1 ==> !(#[trigger] events[i]).1 {
        lemma_nothing_written(events.drop_last());
        assert(written(events) =~= seq![events.last().0]);
    }
}

/// A run in which the queue was never seen empty writes nothing.
proof fn lemma_nothing_written<T>(events: Seq<(T, bool)>)
    requires
        forall|i: int| 0 <= i < events.len() ==> !(#[trigger] events[i]).1,
    ensures
        written(events) == Seq::<T>::empty(),
    decreases events.len(),
{
    if events.len() > 0 {
        lemma_nothing_written(events.drop_last());
    }
}

} // verus!
