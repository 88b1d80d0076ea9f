//! Catching up after a reconnect: which messages were missed while the
//! client was away, and how they are handed over.

use vstd::prelude::*;
use crate::app_image::{
    advanced,
    remembered,
    started,
    Resolution,
    ResolutionView,
    ResolveError,
    ResolveEvent,
    ResolveEventView,
};
use crate::client::ClientView;
use crate::delivery::seen_all;
use crate::message::{ids, views, with_image, Message, MessageView};

verus! {

/// The messages of `batch` that are newer than `last_msg_id`, oldest first.
///
/// `batch` is what the server lists, newest first. When no message was ever
/// delivered there is nothing to catch up on.
pub open spec fn missed(last_msg_id: Option<i64>, batch: Seq<MessageView>) -> Seq<MessageView> {
    match last_msg_id {
        Some(last) => batch.filter(|m: MessageView| m.id > last).reverse(),
        None => Seq::empty(),
    }
}

proof fn lemma_missed_step(last: i64, batch: Seq<MessageView>, k: int)
    requires
        0 < k <= batch.len(),
    ensures
        missed(Some(last), batch.subrange(k - 1, batch.len() as int)) == if batch[k - 1].id > last {
            missed(Some(last), batch.subrange(k, batch.len() as int)).push(batch[k - 1])
        } else {
            missed(Some(last), batch.subrange(k, batch.len() as int))
        },
{
    let n = batch.len() as int;
    let p = |m: MessageView| m.id > last;
    let head = seq![batch[k - 1]];
    let tail = batch.subrange(k, n);
    assert(batch.subrange(k - 1, n) =~= head + tail);
    Seq::filter_distributes_over_add(head, tail, p);
    reveal_with_fuel(Seq::filter, 2);
    assert(head.drop_last() =~= Seq::<MessageView>::empty());
    assert(head.last() == batch[k - 1]);
    if batch[k - 1].id > last {
        assert(head.filter(p) =~= head);
        assert((head + tail.filter(p)).reverse() =~= tail.filter(p).reverse().push(batch[k - 1]));
    } else {
        assert(head.filter(p) =~= Seq::<MessageView>::empty());
        assert(head.filter(p) + tail.filter(p) =~= tail.filter(p));
    }
}

/// Keeps the messages of `batch` that are newer than `last_msg_id` and puts
/// them oldest first.
pub fn missed_messages(last_msg_id: Option<i64>, batch: Vec<Message>) -> (kept: Vec<Message>)
    ensures
        views(kept@) == missed(last_msg_id, views(batch@)),
{
    let mut kept: Vec<Message> = Vec::new();
    match last_msg_id {
        None => {
            assert(views(kept@) =~= Seq::<MessageView>::empty());
        },
        Some(last) => {
            let mut rest = batch;
            let ghost all = views(rest@);
            assert(all.subrange(all.len() as int, all.len() as int) =~= Seq::<
                MessageView,
            >::empty());
            assert(views(kept@) =~= Seq::<MessageView>::empty());
            while rest.len() > 0
                invariant
                    views(rest@) == all.subrange(0, rest.len() as int),
                    rest.len() <= all.len(),
                    views(kept@) == missed(
                        Some(last),
                        all.subrange(rest.len() as int, all.len() as int),
                    ),
                decreases rest.len(),
            {
                let ghost before = rest@;
                let ghost had = kept@;
                proof {
                    lemma_missed_step(last, all, rest.len() as int);
                    assert(views(before)[rest.len() - 1] == before.last()@);
                }
                let newest = rest.pop();
                assert(views(rest@) =~= all.subrange(0, rest.len() as int));
                match newest {
                    Some(m) => {
                        if m.id > last {
                            kept.push(m);
                            assert(views(kept@) =~= views(had).push(m@));
                        }
                    },
                    None => {},
                }
            }
            assert(all.subrange(0, all.len() as int) =~= all);
        },
    }
    kept
}

/// The identifiers of `batch` that are newer than `last_msg_id`, oldest
/// first: what `missed` keeps, told by identifiers alone.
pub open spec fn missed_ids(last_msg_id: Option<i64>, batch: Seq<i64>) -> Seq<i64> {
    match last_msg_id {
        Some(last) => batch.filter(|id: i64| id > last).reverse(),
        None => Seq::empty(),
    }
}

proof fn lemma_filter_ids(last: i64, batch: Seq<MessageView>)
    ensures
        ids(batch.filter(|m: MessageView| m.id > last)) == ids(batch).filter(|id: i64| id > last),
    decreases batch.len(),
{
    reveal(Seq::filter);
    let pm = |m: MessageView| m.id > last;
    let pi = |id: i64| id > last;
    if batch.len() == 0 {
        assert(ids(batch.filter(pm)) =~= ids(batch).filter(pi));
    } else {
        lemma_filter_ids(last, batch.drop_last());
        assert(ids(batch).drop_last() =~= ids(batch.drop_last()));
        assert(ids(batch).last() == batch.last().id);
        if batch.last().id > last {
            assert(ids(batch.drop_last().filter(pm).push(batch.last())) =~= ids(
                batch.drop_last().filter(pm),
            ).push(batch.last().id));
        }
    }
}

/// The identifiers of the missed messages are the missed identifiers.
pub proof fn lemma_missed_ids(last_msg_id: Option<i64>, batch: Seq<MessageView>)
    ensures
        ids(missed(last_msg_id, batch)) == missed_ids(last_msg_id, ids(batch)),
{
    match last_msg_id {
        Some(last) => {
            lemma_filter_ids(last, batch);
            let kept = batch.filter(|m: MessageView| m.id > last);
            assert(ids(kept.reverse()) =~= ids(kept).reverse());
        },
        None => {
            assert(ids(Seq::<MessageView>::empty()) =~= Seq::<i64>::empty());
        },
    }
}

/// Where catching up stands, and what is to be done next.
#[derive(Debug, Clone, PartialEq, Eq)]
pub enum CatchUp {
    /// Ask the server for its most recent messages.
    Fetch,
    /// Do the step `step` of the search for the image of the application of
    /// `message`. `ready` are the missed messages before it, `waiting` those
    /// after it.
    AppImg { waiting: Vec<Message>, ready: Vec<Message>, message: Message, step: Resolution },
    /// Nothing: here are the missed messages, oldest first.
    Done { messages: Vec<Message> },
}

/// A `CatchUp` as plain text.
pub enum CatchUpView {
    Fetch,
    AppImg {
        waiting: Seq<MessageView>,
        ready: Seq<MessageView>,
        message: MessageView,
        step: ResolutionView,
    },
    Done { messages: Seq<MessageView> },
}

impl View for CatchUp {
    type V = CatchUpView;

    open spec fn view(&self) -> CatchUpView {
        match *self {
            CatchUp::Fetch => CatchUpView::Fetch,
            CatchUp::AppImg { waiting, ready, message, step } => CatchUpView::AppImg {
                waiting: views(waiting@),
                ready: views(ready@),
                message: message@,
                step: step@,
            },
            CatchUp::Done { messages } => CatchUpView::Done { messages: views(messages@) },
        }
    }
}

/// What came of the step that a `CatchUp` asked for.
#[derive(Debug, Clone, PartialEq, Eq)]
pub enum CatchUpEvent {
    /// The most recent messages of the server, newest first.
    Batch { messages: Vec<Message> },
    /// What came of a step of the search for an image.
    AppImg { event: ResolveEvent },
}

/// A `CatchUpEvent` as plain text.
pub enum CatchUpEventView {
    Batch { messages: Seq<MessageView> },
    AppImg { event: ResolveEventView },
}

impl View for CatchUpEvent {
    type V = CatchUpEventView;

    open spec fn view(&self) -> CatchUpEventView {
        match *self {
            CatchUpEvent::Batch { messages } => CatchUpEventView::Batch {
                messages: views(messages@),
            },
            CatchUpEvent::AppImg { event } => CatchUpEventView::AppImg { event: event@ },
        }
    }
}

/// Where catching up begins: with a request to the server, unless no
/// message was ever delivered, in which case nothing was missed and nothing
/// is asked.
pub open spec fn catch_up_start(last_msg_id: Option<i64>) -> CatchUpView {
    match last_msg_id {
        Some(_) => CatchUpView::Fetch,
        None => CatchUpView::Done { messages: Seq::empty() },
    }
}

/// Where catching up stands when `ready` are through the search for their
/// images and `waiting` are still to go, in this order: the messages whose
/// search is over at once move on, up to the first one that needs a step.
pub open spec fn settled(
    paths: Map<i64, Option<Seq<char>>>,
    waiting: Seq<MessageView>,
    ready: Seq<MessageView>,
) -> CatchUpView
    decreases waiting.len(),
{
    if waiting.len() == 0 {
        CatchUpView::Done { messages: ready }
    } else {
        let message = waiting.first();
        match started(paths, message.appid) {
            ResolutionView::Done { path } => settled(
                paths,
                waiting.drop_first(),
                ready.push(with_image(message, path)),
            ),
            step => CatchUpView::AppImg { waiting: waiting.drop_first(), ready, message, step },
        }
    }
}

/// What follows when `event` answers the step `pending` of catching up.
///
/// The server's list gives the missed messages: those newer than the newest
/// one delivered, oldest first. Each of them goes through the search for
/// the image of its application before the next one does.
pub open spec fn catch_up_step(
    client: ClientView,
    pending: CatchUpView,
    event: CatchUpEventView,
) -> Result<CatchUpView, ResolveError> {
    match (pending, event) {
        (CatchUpView::Fetch, CatchUpEventView::Batch { messages }) => Ok(
            settled(client.app_imgs, missed(client.last_msg_id, messages), Seq::empty()),
        ),
        (
            CatchUpView::AppImg { waiting, ready, message, step },
            CatchUpEventView::AppImg { event },
        ) => match advanced(message.appid, step, event) {
            Ok(ResolutionView::Done { path }) => Ok(
                settled(
                    remembered(client.app_imgs, message.appid, step, event),
                    waiting,
                    ready.push(with_image(message, path)),
                ),
            ),
            Ok(next) => Ok(CatchUpView::AppImg { waiting, ready, message, step: next }),
            Err(e) => Err(e),
        },
        _ => Err(ResolveError::Unexpected),
    }
}

/// The client once `event` has answered the step `pending` of catching up:
/// what the search for an image found is remembered, and the missed
/// messages count as delivered once they are all handed over.
pub open spec fn catch_up_client(
    client: ClientView,
    pending: CatchUpView,
    event: CatchUpEventView,
) -> ClientView {
    ClientView {
        app_imgs: match (pending, event) {
            (
                CatchUpView::AppImg { waiting, ready, message, step },
                CatchUpEventView::AppImg { event },
            ) => remembered(client.app_imgs, message.appid, step, event),
            _ => client.app_imgs,
        },
        last_msg_id: match catch_up_step(client, pending, event) {
            Ok(CatchUpView::Done { messages }) => seen_all(client.last_msg_id, ids(messages)),
            _ => client.last_msg_id,
        },
        ..client
    }
}

/// The result of a step of catching up, as plain text.
pub open spec fn catch_up_view(step: Result<CatchUp, ResolveError>) -> Result<
    CatchUpView,
    ResolveError,
> {
    match step {
        Ok(next) => Ok(next@),
        Err(e) => Err(e),
    }
}

/// The messages of a list, each without its image.
pub open spec fn plain(messages: Seq<MessageView>) -> Seq<MessageView> {
    messages.map_values(|m: MessageView| with_image(m, None))
}

/// The messages that a step of catching up holds, in the order in which
/// they will be handed over, each without its image.
pub open spec fn in_order(step: CatchUpView) -> Seq<MessageView> {
    match step {
        CatchUpView::Fetch => Seq::empty(),
        CatchUpView::AppImg { waiting, ready, message, step } => plain(ready).push(
            with_image(message, None),
        ) + plain(waiting),
        CatchUpView::Done { messages } => plain(messages),
    }
}

proof fn lemma_settled_in_order(
    paths: Map<i64, Option<Seq<char>>>,
    waiting: Seq<MessageView>,
    ready: Seq<MessageView>,
)
    ensures
        in_order(settled(paths, waiting, ready)) == plain(ready) + plain(waiting),
        !(settled(paths, waiting, ready) is Fetch),
    decreases waiting.len(),
{
    if waiting.len() == 0 {
        assert(plain(ready) + plain(waiting) =~= plain(ready));
    } else {
        let message = waiting.first();
        match started(paths, message.appid) {
            ResolutionView::Done { path } => {
                let moved = ready.push(with_image(message, path));
                lemma_settled_in_order(paths, waiting.drop_first(), moved);
                assert(plain(moved) + plain(waiting.drop_first()) =~= plain(ready) + plain(
                    waiting,
                ));
            },
            _ => {
                assert(plain(ready).push(with_image(message, None)) + plain(waiting.drop_first())
                    =~= plain(ready) + plain(waiting));
            },
        }
    }
}

/// Where catching up stands, and what the client has become, once the
/// server's list `batch` and then `events` have come in one after the
/// other, each answering the step before it.
pub open spec fn caught_up(
    client: ClientView,
    batch: Seq<MessageView>,
    events: Seq<ResolveEventView>,
) -> (Result<CatchUpView, ResolveError>, ClientView)
    decreases events.len(),
{
    if events.len() == 0 {
        let event = CatchUpEventView::Batch { messages: batch };
        (
            catch_up_step(client, CatchUpView::Fetch, event),
            catch_up_client(client, CatchUpView::Fetch, event),
        )
    } else {
        let (before, then) = caught_up(client, batch, events.drop_last());
        let event = CatchUpEventView::AppImg { event: events.last() };
        match before {
            Ok(pending) => (
                catch_up_step(then, pending, event),
                catch_up_client(then, pending, event),
            ),
            Err(e) => (Err(e), then),
        }
    }
}

proof fn lemma_caught_up_in_order(
    client: ClientView,
    batch: Seq<MessageView>,
    events: Seq<ResolveEventView>,
)
    ensures
        match caught_up(client, batch, events).0 {
            Ok(CatchUpView::Fetch) => false,
            Ok(CatchUpView::Done { messages }) => plain(messages) == plain(
                missed(client.last_msg_id, batch),
            ) && caught_up(client, batch, events).1.last_msg_id == seen_all(
                client.last_msg_id,
                ids(messages),
            ),
            Ok(step) => in_order(step) == plain(missed(client.last_msg_id, batch)) && caught_up(
                client,
                batch,
                events,
            ).1.last_msg_id == client.last_msg_id,
            Err(_) => true,
        },
    decreases events.len(),
{
    if events.len() == 0 {
        let kept = missed(client.last_msg_id, batch);
        lemma_settled_in_order(client.app_imgs, kept, Seq::empty());
        assert(plain(Seq::<MessageView>::empty()) + plain(kept) =~= plain(kept));
    } else {
        lemma_caught_up_in_order(client, batch, events.drop_last());
        let (before, then) = caught_up(client, batch, events.drop_last());
        match before {
            Ok(CatchUpView::AppImg { waiting, ready, message, step }) => {
                match advanced(message.appid, step, events.last()) {
                    Ok(ResolutionView::Done { path }) => {
                        let paths = remembered(then.app_imgs, message.appid, step, events.last());
                        let moved = ready.push(with_image(message, path));
                        lemma_settled_in_order(paths, waiting, moved);
                        assert(plain(moved) =~= plain(ready).push(with_image(message, None)));
                    },
                    _ => {},
                }
            },
            _ => {},
        }
    }
}

/// Whatever the searches for images need, catching up ends with exactly
/// the missed messages: those of the server's list that are newer than the
/// newest one delivered, oldest first, each changed in nothing but its
/// image. From then on they count as delivered.
pub proof fn law_catch_up_delivers_what_was_missed(
    client: ClientView,
    batch: Seq<MessageView>,
    events: Seq<ResolveEventView>,
)
    requires
        caught_up(client, batch, events).0 matches Ok(CatchUpView::Done { .. }),
    ensures
        caught_up(client, batch, events).0 matches Ok(CatchUpView::Done { messages }) && plain(
            messages,
        ) == plain(missed(client.last_msg_id, batch)) && ids(messages) == missed_ids(
            client.last_msg_id,
            ids(batch),
        ) && caught_up(client, batch, events).1.last_msg_id == seen_all(
            client.last_msg_id,
            ids(messages),
        ),
{
    lemma_caught_up_in_order(client, batch, events);
    lemma_missed_ids(client.last_msg_id, batch);
    let messages = caught_up(client, batch, events).0->Ok_0->Done_messages;
    let kept = missed(client.last_msg_id, batch);
    assert(ids(messages) =~= ids(kept)) by {
        assert(messages.len() == plain(messages).len());
        assert(kept.len() == plain(kept).len());
        assert forall|i: int| 0 <= i < messages.len() implies messages[i].id == kept[i].id by {
            assert(plain(messages)[i].id == messages[i].id);
            assert(plain(kept)[i].id == kept[i].id);
        }
    }
}

/// A client that has delivered nothing yet catches up without asking the
/// server anything: there is no step to do, and nothing was missed.
pub proof fn law_first_catch_up_asks_nothing()
    ensures
        catch_up_start(None) == (CatchUpView::Done { messages: Seq::empty() }),
{
}

/// When the message with identifier `n` was the last one delivered and the
/// server lists `n + 2`, `n + 1`, `n` and `n - 1`, exactly `n + 1` and
/// `n + 2` are missed, in this order: the message delivered last is not
/// delivered again.
pub proof fn law_last_delivered_is_not_missed(n: i64)
    requires
        i64::MIN < n,
        n + 2 <= i64::MAX,
    ensures
        missed_ids(Some(n), seq![(n + 2) as i64, (n + 1) as i64, n, (n - 1) as i64]) == seq![
            (n + 1) as i64,
            (n + 2) as i64,
        ],
{
    let p = |id: i64| id > n;
    let batch = seq![(n + 2) as i64, (n + 1) as i64, n, (n - 1) as i64];
    reveal_with_fuel(Seq::filter, 5);
    let b3 = batch.drop_last();
    let b2 = b3.drop_last();
    let b1 = b2.drop_last();
    let b0 = b1.drop_last();
    assert(b0.len() == 0);
    assert(b1.filter(p) =~= seq![(n + 2) as i64]);
    assert(b2.filter(p) =~= seq![(n + 2) as i64, (n + 1) as i64]);
    assert(b3.filter(p) =~= b2.filter(p));
    assert(batch.filter(p) =~= seq![(n + 2) as i64, (n + 1) as i64]);
    assert(batch.filter(p).reverse() =~= seq![(n + 1) as i64, (n + 2) as i64]);
}

/// Before any message was delivered nothing counts as missed, whatever the
/// server lists.
pub proof fn law_nothing_missed_at_first(batch: Seq<MessageView>)
    ensures
        missed(None, batch) == Seq::<MessageView>::empty(),
{
}

} // verus!
