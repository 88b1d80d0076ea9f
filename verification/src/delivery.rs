//! The order in which messages reach the caller.
//!
//! The client remembers the identifier of the newest message it has
//! delivered. It only ever moves up, and it is what tells a missed message
//! from one that was delivered already.

use vstd::prelude::*;
use crate::catch_up::missed_ids;
use crate::message::{ids, views, Message};

verus! {

/// The newer of the identifier delivered last and `id`.
pub open spec fn seen(last_msg_id: Option<i64>, id: i64) -> Option<i64> {
    match last_msg_id {
        Some(last) => if id > last {
            Some(id)
        } else {
            Some(last)
        },
        None => Some(id),
    }
}

/// The identifier delivered last once the messages with the identifiers
/// `delivered` have been handed over too: the highest of them all.
pub open spec fn seen_all(last_msg_id: Option<i64>, delivered: Seq<i64>) -> Option<i64>
    decreases delivered.len(),
{
    if delivered.len() == 0 {
        last_msg_id
    } else {
        seen(seen_all(last_msg_id, delivered.drop_last()), delivered.last())
    }
}

/// Moves the identifier delivered last up to `id`; it never moves down.
pub fn advance(last_msg_id: Option<i64>, id: i64) -> (now: Option<i64>)
    ensures
        now == seen(last_msg_id, id),
{
    match last_msg_id {
        Some(last) => if id > last {
            Some(id)
        } else {
            Some(last)
        },
        None => Some(id),
    }
}

/// Moves the identifier delivered last up to the highest of `messages`.
pub fn advance_all(last_msg_id: Option<i64>, messages: &Vec<Message>) -> (now: Option<i64>)
    ensures
        now == seen_all(last_msg_id, ids(views(messages@))),
{
    let ghost all = ids(views(messages@));
    let mut now = last_msg_id;
    let mut i: usize = 0;
    assert(all.subrange(0, 0) =~= Seq::<i64>::empty());
    while i < messages.len()
        invariant
            all == ids(views(messages@)),
            i <= messages.len(),
            now == seen_all(last_msg_id, all.subrange(0, i as int)),
        decreases messages.len() - i,
    {
        assert(all.subrange(0, i + 1).drop_last() =~= all.subrange(0, i as int));
        assert(all.subrange(0, i + 1).last() == messages@[i as int].id);
        now = advance(now, messages[i].id);
        i = i + 1;
    }
    assert(all.subrange(0, i as int) =~= all);
    now
}

/// Each identifier is higher than the one before it.
pub open spec fn increasing(s: Seq<i64>) -> bool {
    forall|i: int, j: int| 0 <= i < j < s.len() ==> s[i] < s[j]
}

/// Each identifier is lower than the one before it.
pub open spec fn decreasing(s: Seq<i64>) -> bool {
    forall|i: int, j: int| 0 <= i < j < s.len() ==> s[i] > s[j]
}

proof fn lemma_filter_above(s: Seq<i64>, p: spec_fn(i64) -> bool, low: i64)
    requires
        forall|i: int| 0 <= i < s.len() ==> s[i] > low,
    ensures
        forall|k: int| 0 <= k < s.filter(p).len() ==> s.filter(p)[k] > low,
    decreases s.len(),
{
    reveal(Seq::filter);
    if s.len() > 0 {
        let front = s.drop_last();
        assert(forall|i: int| 0 <= i < front.len() ==> front[i] == s[i]);
        lemma_filter_above(front, p, low);
        let kept = s.filter(p);
        assert forall|k: int| 0 <= k < kept.len() implies kept[k] > low by {
            if k < front.filter(p).len() {
                assert(kept[k] == front.filter(p)[k]);
            } else {
                assert(kept[k] == s.last());
            }
        }
    }
}

proof fn lemma_filter_decreasing(s: Seq<i64>, p: spec_fn(i64) -> bool)
    requires
        decreasing(s),
    ensures
        decreasing(s.filter(p)),
    decreases s.len(),
{
    reveal(Seq::filter);
    if s.len() > 0 {
        let front = s.drop_last();
        assert(forall|i: int| 0 <= i < front.len() ==> front[i] == s[i]);
        lemma_filter_decreasing(front, p);
        lemma_filter_above(front, p, s.last());
        let kept = s.filter(p);
        let before = front.filter(p);
        assert forall|i: int, j: int| 0 <= i < j < kept.len() implies kept[i] > kept[j] by {
            assert(kept[i] == before[i]);
            if j < before.len() {
                assert(kept[j] == before[j]);
            } else {
                assert(kept[j] == s.last());
            }
        }
    }
}

proof fn lemma_missed_ids_increasing(last: i64, batch: Seq<i64>)
    requires
        decreasing(batch),
    ensures
        increasing(missed_ids(Some(last), batch)),
        forall|k: int|
            0 <= k < missed_ids(Some(last), batch).len() ==> missed_ids(Some(last), batch)[k]
                > last,
{
    let p = |id: i64| id > last;
    lemma_filter_decreasing(batch, p);
    let kept = batch.filter(p);
    let out = kept.reverse();
    assert forall|i: int, j: int| 0 <= i < j < out.len() implies out[i] < out[j] by {
        assert(out[i] == kept[kept.len() - 1 - i]);
        assert(out[j] == kept[kept.len() - 1 - j]);
    }
    assert forall|k: int| 0 <= k < out.len() implies out[k] > last by {
        assert(out[k] == kept[kept.len() - 1 - k]);
        batch.lemma_filter_pred(p, kept.len() - 1 - k);
    }
}

proof fn lemma_seen_all_highest(last_msg_id: Option<i64>, delivered: Seq<i64>)
    ensures
        delivered.len() == 0 ==> seen_all(last_msg_id, delivered) == last_msg_id,
        delivered.len() > 0 || last_msg_id is Some ==> seen_all(last_msg_id, delivered) is Some,
        forall|i: int|
            0 <= i < delivered.len() ==> delivered[i] <= seen_all(last_msg_id, delivered).unwrap(),
        last_msg_id is Some ==> last_msg_id.unwrap() <= seen_all(last_msg_id, delivered).unwrap(),
    decreases delivered.len(),
{
    if delivered.len() > 0 {
        let front = delivered.drop_last();
        lemma_seen_all_highest(last_msg_id, front);
        assert(forall|i: int| 0 <= i < front.len() ==> front[i] == delivered[i]);
    }
}

/// One thing that reaches the client: a message on the stream, or the
/// server's list of recent messages, newest first, after a reconnect.
pub enum Arrival {
    Live { id: i64 },
    CatchUp { batch: Seq<i64> },
}

/// The identifiers handed to the caller for one arrival.
pub open spec fn delivered_for(last_msg_id: Option<i64>, arrival: Arrival) -> Seq<i64> {
    match arrival {
        Arrival::Live { id } => seq![id],
        Arrival::CatchUp { batch } => missed_ids(last_msg_id, batch),
    }
}

/// The identifiers handed to the caller over a run of arrivals, in order.
pub open spec fn delivered(last_msg_id: Option<i64>, arrivals: Seq<Arrival>) -> Seq<i64>
    decreases arrivals.len(),
{
    if arrivals.len() == 0 {
        Seq::empty()
    } else {
        let now = delivered_for(last_msg_id, arrivals.first());
        now + delivered(seen_all(last_msg_id, now), arrivals.drop_first())
    }
}

/// The server uses no identifier again: each message on the stream is
/// newer than all that was delivered before it, and each list of recent
/// messages is strictly newest first.
pub open spec fn never_reused(last_msg_id: Option<i64>, arrivals: Seq<Arrival>) -> bool
    decreases arrivals.len(),
{
    if arrivals.len() == 0 {
        true
    } else {
        let now = delivered_for(last_msg_id, arrivals.first());
        &&& match arrivals.first() {
            Arrival::Live { id } => last_msg_id matches Some(last) ==> id > last,
            Arrival::CatchUp { batch } => decreasing(batch),
        }
        &&& never_reused(seen_all(last_msg_id, now), arrivals.drop_first())
    }
}

/// As long as the server uses no identifier again, the caller sees strictly
/// increasing identifiers, all of them newer than what was delivered before
/// the run: no message comes twice and none comes out of order, whether it
/// arrives on the stream or is caught up on after a reconnect.
pub proof fn law_delivery_is_increasing(last_msg_id: Option<i64>, arrivals: Seq<Arrival>)
    requires
        never_reused(last_msg_id, arrivals),
    ensures
        increasing(delivered(last_msg_id, arrivals)),
        forall|k: int|
            0 <= k < delivered(last_msg_id, arrivals).len() && last_msg_id is Some ==> delivered(
                last_msg_id,
                arrivals,
            )[k] > last_msg_id.unwrap(),
    decreases arrivals.len(),
{
    if arrivals.len() > 0 {
        let now = delivered_for(last_msg_id, arrivals.first());
        let next = seen_all(last_msg_id, now);
        let rest = delivered(next, arrivals.drop_first());
        law_delivery_is_increasing(next, arrivals.drop_first());
        lemma_seen_all_highest(last_msg_id, now);
        match arrivals.first() {
            Arrival::Live { id } => {},
            Arrival::CatchUp { batch } => {
                if last_msg_id is Some {
                    lemma_missed_ids_increasing(last_msg_id.unwrap(), batch);
                }
            },
        }
        let all = now + rest;
        assert(increasing(now));
        assert forall|i: int, j: int| 0 <= i < j < all.len() implies all[i] < all[j] by {
            if j < now.len() {
            } else if i >= now.len() {
                assert(all[i] == rest[i - now.len()]);
                assert(all[j] == rest[j - now.len()]);
            } else {
                assert(all[j] == rest[j - now.len()]);
                assert(next is Some);
            }
        }
        assert forall|k: int| 0 <= k < all.len() && last_msg_id is Some implies all[k]
            > last_msg_id.unwrap() by {
            if k >= now.len() {
                assert(all[k] == rest[k - now.len()]);
            }
        }
    }
}

} // verus!
