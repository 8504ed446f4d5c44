//! The vocabulary of streams: which of their events are meant, and what is taken from each.

use vstd::prelude::*;

verus! {

/// What `value` takes from the events that `pick` means, in the order of the stream.
pub open spec fn taken<E>(
    events: Seq<E>,
    pick: spec_fn(E) -> bool,
    value: spec_fn(E) -> u64,
) -> Seq<u64> {
    events.filter(pick).map_values(value)
}

/// The last value, if there is one.
pub open spec fn latest(values: Seq<u64>) -> Option<u64> {
    if values.len() == 0 {
        None
    } else {
        Some(values.last())
    }
}

/// Whether the stream holds an event that `pick` means.
pub open spec fn holds<E>(events: Seq<E>, pick: spec_fn(E) -> bool) -> bool {
    exists|i: int| 0 <= i < events.len() && pick(#[trigger] events[i])
}

/// One of the times lies at most `seconds` before `ts`, and none behind it.
pub open spec fn one_counts(times: Seq<u64>, ts: u64, seconds: int) -> bool {
    exists|i: int| 0 <= i < times.len() && #[trigger] times[i] <= ts && ts <= times[i] + seconds
}

/// The last of the times lies at most `seconds` before `ts`, and not behind it.
pub open spec fn last_counts(times: Seq<u64>, ts: u64, seconds: int) -> bool {
    times.len() > 0 && times.last() <= ts && ts <= times.last() + seconds
}

pub proof fn lemma_taken_one_more<E>(
    events: Seq<E>,
    pick: spec_fn(E) -> bool,
    value: spec_fn(E) -> u64,
)
    requires
        events.len() > 0,
    ensures
        taken(events, pick, value) == (if pick(events.last()) {
            taken(events.drop_last(), pick, value).push(value(events.last()))
        } else {
            taken(events.drop_last(), pick, value)
        }),
{
    reveal(Seq::filter);
    let rest = events.drop_last().filter(pick);
    if pick(events.last()) {
        assert(rest.push(events.last()).map_values(value) =~= rest.map_values(value).push(
            value(events.last()),
        ));
    }
}

pub proof fn lemma_taken_of_nothing<E>(
    events: Seq<E>,
    pick: spec_fn(E) -> bool,
    value: spec_fn(E) -> u64,
)
    requires
        events.len() == 0,
    ensures
        taken(events, pick, value) == Seq::<u64>::empty(),
{
    reveal(Seq::filter);
    assert(taken(events, pick, value) =~= Seq::<u64>::empty());
}

pub proof fn lemma_holds_one_more<E>(events: Seq<E>, pick: spec_fn(E) -> bool)
    requires
        events.len() > 0,
    ensures
        holds(events, pick) <==> holds(events.drop_last(), pick) || pick(events.last()),
{
    let rest = events.drop_last();
    if holds(rest, pick) {
        let i = choose|i: int| 0 <= i < rest.len() && pick(#[trigger] rest[i]);
        assert(pick(events[i]));
    }
    if pick(events.last()) {
        assert(pick(events[events.len() - 1]));
    }
    if holds(events, pick) && !pick(events.last()) {
        let i = choose|i: int| 0 <= i < events.len() && pick(#[trigger] events[i]);
        assert(pick(rest[i]));
    }
}

} // verus!
