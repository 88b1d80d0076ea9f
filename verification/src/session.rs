//! A whole session of one client: messages read from the stream, reconnects,
//! and catching up, one after the other.
//!
//! Nothing here runs. The module states what the caller sees over a session
//! and proves it from what each step of the client does.

use vstd::prelude::*;
use crate::app_image::ResolveEventView;
use crate::catch_up::{caught_up, law_catch_up_delivers_what_was_missed, missed_ids, CatchUpView};
use crate::client::ClientView;
use crate::delivery::{
    decreasing,
    delivered,
    delivered_for,
    increasing,
    law_delivery_is_increasing,
    never_reused,
    seen_all,
    Arrival,
};
use crate::message::{ids, MessageView};
use crate::stream::{law_reading_hands_over_what_was_read, read_through, ReadingView};

verus! {

/// One thing that a client goes through from beginning to end.
pub enum Exchange {
    /// A text frame with `message` is read, and `events` answer the steps of
    /// the search for the image of its application.
    Read { message: MessageView, events: Seq<ResolveEventView> },
    /// The connection is lost and made again: the images are forgotten, the
    /// identifier delivered last is kept.
    Reconnect,
    /// The server lists `batch`, newest first, and `events` answer the steps
    /// of the searches for images.
    CatchUp { batch: Seq<MessageView>, events: Seq<ResolveEventView> },
}

/// The messages handed to the caller in one exchange that runs to its end;
/// an exchange that is given up hands over none.
pub open spec fn handed(client: ClientView, exchange: Exchange) -> Seq<MessageView> {
    match exchange {
        Exchange::Read { message, events } => match read_through::<()>(client, message, events).0 {
            Ok(ReadingView::Message { message }) => seq![message],
            _ => Seq::empty(),
        },
        Exchange::Reconnect => Seq::empty(),
        Exchange::CatchUp { batch, events } => match caught_up(client, batch, events).0 {
            Ok(CatchUpView::Done { messages }) => messages,
            _ => Seq::empty(),
        },
    }
}

/// The client after one exchange.
pub open spec fn after(client: ClientView, exchange: Exchange) -> ClientView {
    match exchange {
        Exchange::Read { message, events } => read_through::<()>(client, message, events).1,
        Exchange::Reconnect => ClientView { app_imgs: Map::empty(), ..client },
        Exchange::CatchUp { batch, events } => caught_up(client, batch, events).1,
    }
}

/// The messages handed to the caller over a run of exchanges, in order.
pub open spec fn session(client: ClientView, exchanges: Seq<Exchange>) -> Seq<MessageView>
    decreases exchanges.len(),
{
    if exchanges.len() == 0 {
        Seq::empty()
    } else {
        handed(client, exchanges.first()) + session(
            after(client, exchanges.first()),
            exchanges.drop_first(),
        )
    }
}

/// The exchange runs to its end, and what it brings was not there before: a
/// message read from the stream is newer than all that was delivered, and
/// a list of recent messages is strictly newest first.
pub open spec fn runs_in_order(client: ClientView, exchange: Exchange) -> bool {
    match exchange {
        Exchange::Read { message, events } => {
            &&& read_through::<()>(client, message, events).0 matches Ok(
                ReadingView::Message { .. },
            )
            &&& client.last_msg_id matches Some(last) ==> message.id > last
        },
        Exchange::Reconnect => true,
        Exchange::CatchUp { batch, events } => {
            &&& caught_up(client, batch, events).0 matches Ok(CatchUpView::Done { .. })
            &&& decreasing(ids(batch))
        },
    }
}

/// Every exchange runs to its end, and the server uses no identifier again.
pub open spec fn orderly(client: ClientView, exchanges: Seq<Exchange>) -> bool
    decreases exchanges.len(),
{
    if exchanges.len() == 0 {
        true
    } else {
        &&& runs_in_order(client, exchanges.first())
        &&& orderly(after(client, exchanges.first()), exchanges.drop_first())
    }
}

/// What reaches the client in an exchange, told by identifiers alone.
pub open spec fn arrival(exchange: Exchange) -> Arrival {
    match exchange {
        Exchange::Read { message, events } => Arrival::Live { id: message.id },
        Exchange::Reconnect => Arrival::CatchUp { batch: Seq::empty() },
        Exchange::CatchUp { batch, events } => Arrival::CatchUp { batch: ids(batch) },
    }
}

/// What reaches the client in a run of exchanges, told by identifiers alone.
pub open spec fn arrivals(exchanges: Seq<Exchange>) -> Seq<Arrival> {
    exchanges.map_values(|exchange: Exchange| arrival(exchange))
}

proof fn lemma_exchange(client: ClientView, exchange: Exchange)
    requires
        runs_in_order(client, exchange),
    ensures
        ids(handed(client, exchange)) == delivered_for(client.last_msg_id, arrival(exchange)),
        match arrival(exchange) {
            Arrival::Live { id } => client.last_msg_id matches Some(last) ==> id > last,
            Arrival::CatchUp { batch } => decreasing(batch),
        },
        after(client, exchange).last_msg_id == seen_all(
            client.last_msg_id,
            ids(handed(client, exchange)),
        ),
{
    match exchange {
        Exchange::Read { message, events } => {
            law_reading_hands_over_what_was_read::<()>(client, message, events);
            let got = handed(client, exchange);
            assert(ids(got) =~= seq![message.id]);
            assert(ids(got).drop_last() =~= Seq::<i64>::empty());
            reveal_with_fuel(seen_all, 2);
        },
        Exchange::Reconnect => {
            assert(ids(Seq::<MessageView>::empty()) =~= Seq::<i64>::empty());
            reveal(Seq::filter);
            let nothing = Seq::<i64>::empty();
            assert(missed_ids(client.last_msg_id, nothing) =~= nothing) by {
                if client.last_msg_id is Some {
                    let last = client.last_msg_id.unwrap();
                    assert(nothing.filter(|id: i64| id > last) =~= nothing);
                }
            }
        },
        Exchange::CatchUp { batch, events } => {
            law_catch_up_delivers_what_was_missed(client, batch, events);
        },
    }
}

proof fn lemma_session(client: ClientView, exchanges: Seq<Exchange>)
    requires
        orderly(client, exchanges),
    ensures
        ids(session(client, exchanges)) == delivered(client.last_msg_id, arrivals(exchanges)),
        never_reused(client.last_msg_id, arrivals(exchanges)),
    decreases exchanges.len(),
{
    if exchanges.len() == 0 {
        assert(ids(Seq::<MessageView>::empty()) =~= Seq::<i64>::empty());
    } else {
        let first = exchanges.first();
        let rest = exchanges.drop_first();
        lemma_exchange(client, first);
        lemma_session(after(client, first), rest);
        assert(arrivals(exchanges).first() == arrival(first));
        assert(arrivals(exchanges).drop_first() =~= arrivals(rest));
        assert(ids(handed(client, first) + session(after(client, first), rest)) =~= ids(
            handed(client, first),
        ) + ids(session(after(client, first), rest)));
    }
}

/// Over a whole session, with any number of reconnects, the caller sees
/// strictly increasing identifiers, as long as every exchange runs to its
/// end and the server uses no identifier again: no message is handed over
/// twice, and none out of order.
pub proof fn law_session_delivers_in_increasing_order(client: ClientView, exchanges: Seq<Exchange>)
    requires
        orderly(client, exchanges),
    ensures
        increasing(ids(session(client, exchanges))),
        forall|k: int|
            0 <= k < session(client, exchanges).len() && client.last_msg_id is Some ==> session(
                client,
                exchanges,
            )[k].id > client.last_msg_id.unwrap(),
{
    lemma_session(client, exchanges);
    law_delivery_is_increasing(client.last_msg_id, arrivals(exchanges));
    assert forall|k: int|
        0 <= k < session(client, exchanges).len() && client.last_msg_id is Some implies session(
        client,
        exchanges,
    )[k].id > client.last_msg_id.unwrap() by {
        assert(ids(session(client, exchanges))[k] == session(client, exchanges)[k].id);
    }
}

} // verus!
