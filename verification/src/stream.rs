//! Reading the next message from the stream, step by step.
//!
//! The stream may stay silent for a long time, so reading waits, for as long
//! as it takes, until the socket can be read or the wait fails. Only then is
//! a frame read. Whether a failure means that the connection is gone, and a
//! reconnect will mend it, is decided here.

use vstd::prelude::*;
use crate::app_image::{
    advanced,
    remembered,
    started,
    Resolution,
    ResolutionView,
    ResolveError,
    ResolveEvent,
    ResolveEventView,
};
use crate::client::ClientView;
use crate::delivery::seen;
use crate::message::{with_image, Message, MessageView};

verus! {

/// Why the stream has to be opened again.
#[derive(Debug, Clone, PartialEq, Eq)]
pub enum NeedsReconnect<E> {
    /// Waiting for the socket was interrupted.
    Io(E),
    /// The server dropped the connection without closing the stream.
    Protocol(E),
}

/// What the server did against the rules of the stream.
#[derive(Debug, Clone, Copy, PartialEq, Eq, Structural)]
pub enum ProtocolError {
    /// A frame that is neither text nor a ping.
    UnexpectedFrame,
    /// A text frame that does not hold a message.
    Undecodable,
}

/// Why no message could be read. `E` is the failure of the transport, which
/// is handed on as it came.
#[derive(Debug, Clone, PartialEq, Eq)]
pub enum ReadError<E> {
    /// The connection is gone: connect again and catch up.
    NeedsReconnect(NeedsReconnect<E>),
    /// The server does not speak as expected.
    Protocol(ProtocolError),
    /// The transport failed for another reason.
    Io(E),
    /// The search for the image of the message's application was given up.
    Image(ResolveError),
    /// The event does not answer the step that was asked for.
    Unexpected,
}

/// What to do next to read a message, and what has been read so far.
#[derive(Debug, Clone, PartialEq, Eq)]
pub enum Reading {
    /// Wait until the socket can be read, for as long as it takes. This is
    /// where reading begins.
    Wait,
    /// Read one frame without blocking.
    Read,
    /// Send what is waiting to be sent: the answer to a ping.
    Flush,
    /// `message` was read: do the step `step` of the search for the image of
    /// its application.
    AppImg { message: Message, step: Resolution },
    /// Nothing: here is the message.
    Message { message: Message },
}

/// A `Reading` as plain text.
pub enum ReadingView {
    Wait,
    Read,
    Flush,
    AppImg { message: MessageView, step: ResolutionView },
    Message { message: MessageView },
}

impl View for Reading {
    type V = ReadingView;

    open spec fn view(&self) -> ReadingView {
        match *self {
            Reading::Wait => ReadingView::Wait,
            Reading::Read => ReadingView::Read,
            Reading::Flush => ReadingView::Flush,
            Reading::AppImg { message, step } => ReadingView::AppImg {
                message: message@,
                step: step@,
            },
            Reading::Message { message } => ReadingView::Message { message: message@ },
        }
    }
}

/// What came of the step that a `Reading` asked for.
#[derive(Debug, Clone, PartialEq, Eq)]
pub enum ReadEvent<E> {
    /// The wait ended and the socket can be read.
    Ready,
    /// The wait ended with nothing to read.
    Idle,
    /// The wait was interrupted.
    Interrupted(E),
    /// The wait failed for another reason.
    WaitFailed(E),
    /// A text frame was read. `message` is the message it holds, if it holds
    /// one.
    Text { message: Option<Message> },
    /// A ping was read.
    Ping,
    /// A frame of another kind was read.
    Other,
    /// The read found that the server dropped the connection without closing
    /// the stream.
    Reset(E),
    /// The read failed for another reason.
    ReadFailed(E),
    /// What was waiting to be sent has been sent.
    Flushed,
    /// What came of a step of the search for an image.
    AppImg { event: ResolveEvent },
}

/// A `ReadEvent` as plain text.
pub enum ReadEventView<E> {
    Ready,
    Idle,
    Interrupted(E),
    WaitFailed(E),
    Text { message: Option<MessageView> },
    Ping,
    Other,
    Reset(E),
    ReadFailed(E),
    Flushed,
    AppImg { event: ResolveEventView },
}

impl<E> View for ReadEvent<E> {
    type V = ReadEventView<E>;

    open spec fn view(&self) -> ReadEventView<E> {
        match *self {
            ReadEvent::Ready => ReadEventView::Ready,
            ReadEvent::Idle => ReadEventView::Idle,
            ReadEvent::Interrupted(e) => ReadEventView::Interrupted(e),
            ReadEvent::WaitFailed(e) => ReadEventView::WaitFailed(e),
            ReadEvent::Text { message } => ReadEventView::Text {
                message: match message {
                    Some(m) => Some(m@),
                    None => None,
                },
            },
            ReadEvent::Ping => ReadEventView::Ping,
            ReadEvent::Other => ReadEventView::Other,
            ReadEvent::Reset(e) => ReadEventView::Reset(e),
            ReadEvent::ReadFailed(e) => ReadEventView::ReadFailed(e),
            ReadEvent::Flushed => ReadEventView::Flushed,
            ReadEvent::AppImg { event } => ReadEventView::AppImg { event: event@ },
        }
    }
}

/// What becomes of a message that was read when the search for its image
/// stands at `step`: it is handed over with its image once the search is
/// over, and waits for the next step of the search until then.
pub open spec fn handed_over(message: MessageView, step: ResolutionView) -> ReadingView {
    match step {
        ResolutionView::Done { path } => ReadingView::Message { message: with_image(message, path) },
        _ => ReadingView::AppImg { message, step },
    }
}

/// What follows when `event` answers the step `pending`: the next thing to
/// do, or why no message can be read. `paths` are the paths of the images
/// remembered so far.
///
/// An interrupted wait, and a connection dropped without closing the
/// stream, ask for a reconnect. A ping is answered and the wait begins
/// again. A text frame gives a message, which is handed over once the image
/// of its application has been searched for. Any other frame, and a text
/// frame without a message, break the protocol.
pub open spec fn read_step<E>(
    paths: Map<i64, Option<Seq<char>>>,
    pending: ReadingView,
    event: ReadEventView<E>,
) -> Result<ReadingView, ReadError<E>> {
    match (pending, event) {
        (ReadingView::Wait, ReadEventView::Ready) => Ok(ReadingView::Read),
        (ReadingView::Wait, ReadEventView::Idle) => Ok(ReadingView::Wait),
        (ReadingView::Wait, ReadEventView::Interrupted(e)) => Err(
            ReadError::NeedsReconnect(NeedsReconnect::Io(e)),
        ),
        (ReadingView::Wait, ReadEventView::WaitFailed(e)) => Err(ReadError::Io(e)),
        (ReadingView::Read, ReadEventView::Text { message: Some(message) }) => Ok(
            handed_over(message, started(paths, message.appid)),
        ),
        (ReadingView::Read, ReadEventView::Text { message: None }) => Err(
            ReadError::Protocol(ProtocolError::Undecodable),
        ),
        (ReadingView::Read, ReadEventView::Ping) => Ok(ReadingView::Flush),
        (ReadingView::Read, ReadEventView::Other) => Err(
            ReadError::Protocol(ProtocolError::UnexpectedFrame),
        ),
        (ReadingView::Read, ReadEventView::Reset(e)) => Err(
            ReadError::NeedsReconnect(NeedsReconnect::Protocol(e)),
        ),
        (ReadingView::Read, ReadEventView::ReadFailed(e)) => Err(ReadError::Io(e)),
        (ReadingView::Flush, ReadEventView::Flushed) => Ok(ReadingView::Wait),
        (ReadingView::AppImg { message, step }, ReadEventView::AppImg { event }) => match advanced(
            message.appid,
            step,
            event,
        ) {
            Ok(next) => Ok(handed_over(message, next)),
            Err(e) => Err(ReadError::Image(e)),
        },
        _ => Err(ReadError::Unexpected),
    }
}

/// The client once `event` has answered the step `pending`: what the search
/// for an image found is remembered, and a message that is handed over
/// counts as delivered.
pub open spec fn read_client<E>(
    client: ClientView,
    pending: ReadingView,
    event: ReadEventView<E>,
) -> ClientView {
    ClientView {
        app_imgs: match (pending, event) {
            (ReadingView::AppImg { message, step }, ReadEventView::AppImg { event }) => remembered(
                client.app_imgs,
                message.appid,
                step,
                event,
            ),
            _ => client.app_imgs,
        },
        last_msg_id: match read_step(client.app_imgs, pending, event) {
            Ok(ReadingView::Message { message }) => seen(client.last_msg_id, message.id),
            _ => client.last_msg_id,
        },
        ..client
    }
}

impl<E> ReadError<E> {
    /// Whether the failure is a lost connection, which a reconnect mends;
    /// any other failure is final.
    pub fn asks_for_reconnect(&self) -> (asks: bool)
        ensures
            asks == (*self is NeedsReconnect),
    {
        match self {
            ReadError::NeedsReconnect(_) => true,
            _ => false,
        }
    }
}

/// The result of a step of reading, as plain text.
pub open spec fn reading_view<E>(step: Result<Reading, ReadError<E>>) -> Result<
    ReadingView,
    ReadError<E>,
> {
    match step {
        Ok(next) => Ok(next@),
        Err(e) => Err(e),
    }
}

/// A reconnect is asked for when the wait was interrupted and when the
/// server dropped the connection without closing the stream, and never
/// otherwise. Any other failure of the wait or of the read is handed on
/// unchanged.
pub proof fn law_only_a_lost_connection_asks_for_reconnect<E>(
    paths: Map<i64, Option<Seq<char>>>,
    pending: ReadingView,
    event: ReadEventView<E>,
)
    ensures
        read_step(paths, pending, event) matches Err(ReadError::NeedsReconnect(_)) <==> (pending
            is Wait && event is Interrupted) || (pending is Read && event is Reset),
        pending is Wait ==> (event matches ReadEventView::Interrupted(e) ==> read_step(
            paths,
            pending,
            event,
        ) == Err::<ReadingView, _>(ReadError::NeedsReconnect(NeedsReconnect::Io(e)))),
        pending is Wait ==> (event matches ReadEventView::WaitFailed(e) ==> read_step(
            paths,
            pending,
            event,
        ) == Err::<ReadingView, _>(ReadError::Io(e))),
        pending is Read ==> (event matches ReadEventView::Reset(e) ==> read_step(
            paths,
            pending,
            event,
        ) == Err::<ReadingView, _>(ReadError::NeedsReconnect(NeedsReconnect::Protocol(e)))),
        pending is Read ==> (event matches ReadEventView::ReadFailed(e) ==> read_step(
            paths,
            pending,
            event,
        ) == Err::<ReadingView, _>(ReadError::Io(e))),
{
}

/// Reading never moves the identifier delivered last down, and once a
/// message is handed over the identifier is at least that of the message.
pub proof fn law_reading_moves_last_delivered_up<E>(
    client: ClientView,
    pending: ReadingView,
    event: ReadEventView<E>,
)
    ensures
        client.last_msg_id matches Some(before) ==> read_client(
            client,
            pending,
            event,
        ).last_msg_id matches Some(after) && before <= after,
        read_step(client.app_imgs, pending, event) matches Ok(ReadingView::Message { message })
            ==> read_client(client, pending, event).last_msg_id == seen(
            client.last_msg_id,
            message.id,
        ),
{
}

/// Where reading stands, and what the client has become, once a text frame
/// with `message` has been read and then `events` have come in one after
/// the other, each answering the step of the search for the image before
/// it.
pub open spec fn read_through<E>(
    client: ClientView,
    message: MessageView,
    events: Seq<ResolveEventView>,
) -> (Result<ReadingView, ReadError<E>>, ClientView)
    decreases events.len(),
{
    if events.len() == 0 {
        let event = ReadEventView::<E>::Text { message: Some(message) };
        (
            read_step(client.app_imgs, ReadingView::Read, event),
            read_client(client, ReadingView::Read, event),
        )
    } else {
        let (before, then) = read_through::<E>(client, message, events.drop_last());
        let event = ReadEventView::<E>::AppImg { event: events.last() };
        match before {
            Ok(pending) => (read_step(then.app_imgs, pending, event), read_client(then, pending, event)),
            Err(e) => (Err(e), then),
        }
    }
}

proof fn lemma_read_through<E>(
    client: ClientView,
    message: MessageView,
    events: Seq<ResolveEventView>,
)
    ensures
        match read_through::<E>(client, message, events).0 {
            Ok(ReadingView::Message { message: handed }) => with_image(handed, None) == with_image(
                message,
                None,
            ) && read_through::<E>(client, message, events).1.last_msg_id == seen(
                client.last_msg_id,
                message.id,
            ),
            Ok(ReadingView::AppImg { message: kept, step }) => kept == message && read_through::<E>(
                client,
                message,
                events,
            ).1.last_msg_id == client.last_msg_id,
            Ok(_) => false,
            Err(_) => true,
        },
    decreases events.len(),
{
    if events.len() > 0 {
        lemma_read_through::<E>(client, message, events.drop_last());
    }
}

/// Whatever the search for its image needs, the message that is handed
/// over is the one that was read, changed in nothing but its image, and it
/// counts as delivered from then on.
pub proof fn law_reading_hands_over_what_was_read<E>(
    client: ClientView,
    message: MessageView,
    events: Seq<ResolveEventView>,
)
    requires
        read_through::<E>(client, message, events).0 matches Ok(ReadingView::Message { .. }),
    ensures
        read_through::<E>(client, message, events).0 matches Ok(
            ReadingView::Message { message: handed },
        ) && with_image(handed, None) == with_image(message, None) && read_through::<E>(
            client,
            message,
            events,
        ).1.last_msg_id == seen(client.last_msg_id, message.id),
{
    lemma_read_through::<E>(client, message, events);
}

} // verus!
