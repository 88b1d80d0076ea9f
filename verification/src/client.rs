//! The client of one server: its addresses, the images it has fetched, and
//! the message it delivered last.
//!
//! The client sends and receives nothing. It says which request to send,
//! and decides what each answer, each frame of the stream and each failure
//! means.

use vstd::prelude::*;
use crate::app_image::{AppImages, Resolution, ResolveError};
use crate::catch_up::{
    catch_up_client,
    catch_up_start,
    catch_up_step,
    catch_up_view,
    missed_messages,
    settled,
    CatchUp,
    CatchUpEvent,
    CatchUpView,
};
use crate::config::GotifyConfig;
use crate::delivery::{advance, advance_all, seen, seen_all};
use crate::message::{ids, views, with_image, Message, MessageView};
use crate::stream::{
    handed_over,
    read_client,
    read_step,
    reading_view,
    NeedsReconnect,
    ProtocolError,
    ReadError,
    ReadEvent,
    Reading,
    ReadingView,
};
use crate::text::{decimal, decimal_string, optional};
use crate::web::{
    add_query,
    add_segment,
    api_scheme,
    change_scheme,
    http_scheme,
    join,
    joined_to,
    key_header,
    query_added,
    scheme_changed,
    scheme_found,
    scheme_of,
    segment_added,
    Method,
    Request,
    RequestError,
    RequestView,
};

verus! {

/// The address of the API of the server whose stream is at `url`: the same
/// address with `https` in place of `wss`, or `http` in place of `ws`.
pub open spec fn api_address(url: Seq<char>) -> Result<Seq<char>, RequestError> {
    match scheme_found(url) {
        None => Err(RequestError::InvalidUrl),
        Some(stream_scheme) => match api_scheme(stream_scheme) {
            None => Err(RequestError::UnexpectedScheme),
            Some(scheme) => match scheme_changed(Some(url), scheme) {
                None => Err(RequestError::InvalidUrl),
                Some(address) => Ok(address),
            },
        },
    }
}

/// The request with verb `method` to `url`, authenticated with `key`; there
/// is none where the address could not be built.
pub open spec fn request_to(method: Method, url: Option<Seq<char>>, key: Seq<char>) -> Result<
    RequestView,
    RequestError,
> {
    match url {
        Some(url) => Ok(RequestView { method, url, header: key_header(), key }),
        None => Err(RequestError::InvalidUrl),
    }
}

/// A request or the reason why there is none, as plain text.
pub open spec fn request_view(request: Result<Request, RequestError>) -> Result<
    RequestView,
    RequestError,
> {
    match request {
        Ok(r) => Ok(r@),
        Err(e) => Err(e),
    }
}

/// The address that lists the most recent messages of the server at `url`.
pub open spec fn messages_address(url: Seq<char>) -> Option<Seq<char>> {
    query_added(segment_added(Some(url), "message"@), "limit"@, "200"@)
}

/// The address of the message `msg_id` of the server at `url`.
pub open spec fn message_address(url: Seq<char>, msg_id: i64) -> Option<Seq<char>> {
    segment_added(segment_added(Some(url), "message"@), decimal(msg_id as int))
}

/// State of the client.
pub struct Client {
    token: String,
    url: String,
    http_url: String,
    app_imgs: AppImages,
    last_msg_id: Option<i64>,
}

/// A `Client` as plain values.
pub struct ClientView {
    /// Token that authenticates the client.
    pub token: Seq<char>,
    /// Address of the server's stream.
    pub url: Seq<char>,
    /// Address of the server's API.
    pub http_url: Seq<char>,
    /// Path of the image of each application looked up so far; `None` for
    /// an application without image.
    pub app_imgs: Map<i64, Option<Seq<char>>>,
    /// Identifier of the newest message delivered, if any was.
    pub last_msg_id: Option<i64>,
}

impl View for Client {
    type V = ClientView;

    closed spec fn view(&self) -> ClientView {
        ClientView {
            token: self.token@,
            url: self.url@,
            http_url: self.http_url@,
            app_imgs: self.app_imgs@,
            last_msg_id: self.last_msg_id,
        }
    }
}

fn as_text(url: &Option<String>) -> (text: Option<&str>)
    ensures
        match text {
            Some(t) => optional(*url) == Some(t@),
            None => url is None,
        },
{
    match url {
        Some(u) => Some(u.as_str()),
        None => None,
    }
}

fn request(method: Method, url: Option<String>, key: &String) -> (made: Result<
    Request,
    RequestError,
>)
    ensures
        request_view(made) == request_to(method, optional(url), key@),
{
    match url {
        Some(url) => Ok(Request { method, url, header: "X-Gotify-Key".to_owned(), key: key.clone() }),
        None => Err(RequestError::InvalidUrl),
    }
}

impl Client {
    /// Makes the client of the server in `cfg`, with an empty image cache.
    ///
    /// `last_msg_id` is the identifier of the newest message delivered by an
    /// earlier client, if there was one. The address of the API is derived
    /// from that of the stream; a stream whose scheme is neither `ws` nor
    /// `wss` is refused.
    pub fn connect(cfg: &GotifyConfig, token: &str, last_msg_id: Option<i64>) -> (client: Result<
        Client,
        RequestError,
    >)
        ensures
            match client {
                Ok(c) => api_address(cfg.url@) == Ok::<_, RequestError>(c@.http_url) && c@
                    == (ClientView {
                    token: token@,
                    url: cfg.url@,
                    http_url: c@.http_url,
                    app_imgs: Map::empty(),
                    last_msg_id,
                }),
                Err(e) => api_address(cfg.url@) == Err::<Seq<char>, _>(e),
            },
    {
        let stream_scheme = match scheme_of(cfg.url.as_str()) {
            Some(s) => s,
            None => {
                return Err(RequestError::InvalidUrl);
            },
        };
        let api = match http_scheme(stream_scheme.as_str()) {
            Some(s) => s,
            None => {
                return Err(RequestError::UnexpectedScheme);
            },
        };
        let http_url = match change_scheme(Some(cfg.url.as_str()), api) {
            Some(u) => u,
            None => {
                return Err(RequestError::InvalidUrl);
            },
        };
        Ok(
            Client {
                token: token.to_owned(),
                url: cfg.url.clone(),
                http_url,
                app_imgs: AppImages::new(),
                last_msg_id,
            },
        )
    }

    /// The identifier of the newest message delivered, to hand to the next
    /// client after a reconnect.
    pub fn last_msg_id(&self) -> (last: Option<i64>)
        ensures
            last == self@.last_msg_id,
    {
        self.last_msg_id
    }

    /// The request that opens the stream.
    pub fn try_connect(&self) -> (made: Result<Request, RequestError>)
        ensures
            request_view(made) == request_to(
                Method::Get,
                segment_added(Some(self@.url), "stream"@),
                self@.token,
            ),
    {
        request(Method::Get, add_segment(Some(self.url.as_str()), "stream"), &self.token)
    }

    /// The request for the most recent messages of the server.
    pub fn missed_messages_request(&self) -> (made: Result<Request, RequestError>)
        ensures
            request_view(made) == request_to(
                Method::Get,
                messages_address(self@.http_url),
                self@.token,
            ),
    {
        let list = add_segment(Some(self.http_url.as_str()), "message");
        let url = add_query(as_text(&list), "limit", "200");
        request(Method::Get, url, &self.token)
    }

    /// Begins catching up with the messages missed while the client was
    /// away.
    ///
    /// As long as no message was ever delivered nothing can have been
    /// missed: catching up is over at once and the server is not asked.
    pub fn catch_up(&self) -> (first: CatchUp)
        ensures
            first@ == catch_up_start(self@.last_msg_id),
    {
        match self.last_msg_id {
            Some(_) => CatchUp::Fetch,
            None => {
                let messages: Vec<Message> = Vec::new();
                assert(views(messages@) =~= Seq::<MessageView>::empty());
                CatchUp::Done { messages }
            },
        }
    }

    fn settle(&mut self, waiting: Vec<Message>, ready: Vec<Message>) -> (at: CatchUp)
        ensures
            at@ == settled(old(self)@.app_imgs, views(waiting@), views(ready@)),
            final(self)@ == (ClientView {
                last_msg_id: match at@ {
                    CatchUpView::Done { messages } => seen_all(
                        old(self)@.last_msg_id,
                        ids(messages),
                    ),
                    _ => old(self)@.last_msg_id,
                },
                ..old(self)@
            }),
    {
        let mut left = waiting;
        let mut done = ready;
        let ghost goal = settled(self@.app_imgs, views(waiting@), views(ready@));
        while left.len() > 0
            invariant
                *self == *old(self),
                goal == settled(old(self)@.app_imgs, views(waiting@), views(ready@)),
                goal == settled(self@.app_imgs, views(left@), views(done@)),
            decreases left.len(),
        {
            let ghost before = views(left@);
            let ghost had = views(done@);
            let mut message = left.remove(0);
            assert(views(left@) =~= before.drop_first());
            assert(before.first() == message@);
            let step = self.app_imgs.resolve(message.appid);
            match step {
                Resolution::Done { path } => {
                    message.app_img_filepath = path;
                    done.push(message);
                    assert(views(done@) =~= had.push(with_image(before.first(), optional(path))));
                },
                _ => {
                    assert(goal == (CatchUpView::AppImg {
                        waiting: before.drop_first(),
                        ready: had,
                        message: before.first(),
                        step: step@,
                    }));
                    return CatchUp::AppImg { waiting: left, ready: done, message, step };
                },
            }
        }
        self.last_msg_id = advance_all(self.last_msg_id, &done);
        CatchUp::Done { messages: done }
    }

    /// Takes what came of the step `pending` of catching up and says what
    /// to do next.
    ///
    /// The server's list of recent messages, newest first, gives the missed
    /// messages: those newer than the newest one delivered, oldest first.
    /// Each goes through the search for the image of its application. Once
    /// all are through they are handed over, and count as delivered.
    pub fn get_missed_messages(&mut self, pending: CatchUp, event: CatchUpEvent) -> (next: Result<
        CatchUp,
        ResolveError,
    >)
        ensures
            catch_up_view(next) == catch_up_step(old(self)@, pending@, event@),
            final(self)@ == catch_up_client(old(self)@, pending@, event@),
    {
        match pending {
            CatchUp::Fetch => match event {
                CatchUpEvent::Batch { messages } => {
                    let kept = missed_messages(self.last_msg_id, messages);
                    let ready: Vec<Message> = Vec::new();
                    assert(views(ready@) =~= Seq::<MessageView>::empty());
                    Ok(self.settle(kept, ready))
                },
                _ => Err(ResolveError::Unexpected),
            },
            CatchUp::AppImg { waiting, ready, message, step } => match event {
                CatchUpEvent::AppImg { event } => {
                    let ghost had = views(ready@);
                    match self.app_imgs.advance(message.appid, step, event) {
                        Ok(Resolution::Done { path }) => {
                            let mut message = message;
                            let mut ready = ready;
                            message.app_img_filepath = path;
                            ready.push(message);
                            assert(views(ready@) =~= had.push(message@));
                            Ok(self.settle(waiting, ready))
                        },
                        Ok(next) => Ok(CatchUp::AppImg { waiting, ready, message, step: next }),
                        Err(e) => Err(e),
                    }
                },
                _ => Err(ResolveError::Unexpected),
            },
            CatchUp::Done { messages } => Err(ResolveError::Unexpected),
        }
    }

    fn hand_over(&mut self, message: Message, step: Resolution) -> (next: Reading)
        ensures
            next@ == handed_over(message@, step@),
            final(self)@ == (ClientView {
                last_msg_id: match handed_over(message@, step@) {
                    ReadingView::Message { message } => seen(old(self)@.last_msg_id, message.id),
                    _ => old(self)@.last_msg_id,
                },
                ..old(self)@
            }),
    {
        match step {
            Resolution::Done { path } => {
                let mut message = message;
                message.app_img_filepath = path;
                self.last_msg_id = advance(self.last_msg_id, message.id);
                Reading::Message { message }
            },
            _ => Reading::AppImg { message, step },
        }
    }

    /// Takes what came of the step `pending` of reading a message and says
    /// what to do next. Reading begins with `Reading::Wait`.
    ///
    /// An interrupted wait, or a connection dropped without closing the
    /// stream, asks for a reconnect; any other failure of the transport is
    /// handed on as it came. A message is handed over once the image of its
    /// application has been searched for, and counts as delivered from then
    /// on.
    pub fn get_message<E>(&mut self, pending: Reading, event: ReadEvent<E>) -> (next: Result<
        Reading,
        ReadError<E>,
    >)
        ensures
            reading_view(next) == read_step(old(self)@.app_imgs, pending@, event@),
            final(self)@ == read_client(old(self)@, pending@, event@),
    {
        match pending {
            Reading::Wait => match event {
                ReadEvent::Ready => Ok(Reading::Read),
                ReadEvent::Idle => Ok(Reading::Wait),
                ReadEvent::Interrupted(e) => Err(ReadError::NeedsReconnect(NeedsReconnect::Io(e))),
                ReadEvent::WaitFailed(e) => Err(ReadError::Io(e)),
                _ => Err(ReadError::Unexpected),
            },
            Reading::Read => match event {
                ReadEvent::Text { message } => match message {
                    Some(message) => {
                        let first = self.app_imgs.resolve(message.appid);
                        Ok(self.hand_over(message, first))
                    },
                    None => Err(ReadError::Protocol(ProtocolError::Undecodable)),
                },
                ReadEvent::Ping => Ok(Reading::Flush),
                ReadEvent::Other => Err(ReadError::Protocol(ProtocolError::UnexpectedFrame)),
                ReadEvent::Reset(e) => Err(
                    ReadError::NeedsReconnect(NeedsReconnect::Protocol(e)),
                ),
                ReadEvent::ReadFailed(e) => Err(ReadError::Io(e)),
                _ => Err(ReadError::Unexpected),
            },
            Reading::Flush => match event {
                ReadEvent::Flushed => Ok(Reading::Wait),
                _ => Err(ReadError::Unexpected),
            },
            Reading::AppImg { message, step } => match event {
                ReadEvent::AppImg { event } => match self.app_imgs.advance(
                    message.appid,
                    step,
                    event,
                ) {
                    Ok(next) => Ok(self.hand_over(message, next)),
                    Err(e) => Err(ReadError::Image(e)),
                },
                _ => Err(ReadError::Unexpected),
            },
            Reading::Message { message } => Err(ReadError::Unexpected),
        }
    }

    /// The request that deletes the message `msg_id` on the server.
    pub fn delete_message(&self, msg_id: i64) -> (made: Result<Request, RequestError>)
        ensures
            request_view(made) == request_to(
                Method::Delete,
                message_address(self@.http_url, msg_id),
                self@.token,
            ),
    {
        let list = add_segment(Some(self.http_url.as_str()), "message");
        let url = add_segment(as_text(&list), decimal_string(msg_id).as_str());
        request(Method::Delete, url, &self.token)
    }

    /// The request for the applications of the server.
    pub fn app_img_url(&self) -> (made: Result<Request, RequestError>)
        ensures
            request_view(made) == request_to(
                Method::Get,
                segment_added(Some(self@.http_url), "application"@),
                self@.token,
            ),
    {
        request(
            Method::Get,
            add_segment(Some(self.http_url.as_str()), "application"),
            &self.token,
        )
    }

    /// The request for the image at `image`, a location relative to the
    /// address of the API.
    pub fn download_app_img(&self, image: &str) -> (made: Result<Request, RequestError>)
        ensures
            request_view(made) == request_to(
                Method::Get,
                joined_to(self@.http_url, image@),
                self@.token,
            ),
    {
        request(Method::Get, join(self.http_url.as_str(), image), &self.token)
    }

}

} // verus!
