use gotify_desktop::app_image::{Resolution, ResolveError, ResolveEvent};
use gotify_desktop::catch_up::{CatchUp, CatchUpEvent};
use gotify_desktop::client::Client;
use gotify_desktop::config::{GotifyConfig, TokenSource};
use gotify_desktop::message::{AppInfo, Message};
use gotify_desktop::stream::{NeedsReconnect, ProtocolError, ReadError, ReadEvent, Reading};
use gotify_desktop::web::{Method, Request, RequestError};

fn config(url: &str) -> GotifyConfig {
    GotifyConfig {
        url: url.to_owned(),
        token: TokenSource::Plain("tok".to_owned()),
        auto_delete: false,
    }
}

fn client(url: &str, last_msg_id: Option<i64>) -> Client {
    Client::connect(&config(url), "tok", last_msg_id).unwrap()
}

fn message(id: i64, appid: i64) -> Message {
    Message {
        id,
        appid,
        text: format!("text {id}"),
        title: format!("title {id}"),
        priority: 5,
        date: "2024-01-01T00:00:00Z".to_owned(),
        app_img_filepath: None,
    }
}

fn with_image(mut message: Message, path: Option<&str>) -> Message {
    message.app_img_filepath = path.map(|p| p.to_owned());
    message
}

fn get(url: &str) -> Request {
    Request {
        method: Method::Get,
        url: url.to_owned(),
        header: "X-Gotify-Key".to_owned(),
        key: "tok".to_owned(),
    }
}

fn ids(messages: &[Message]) -> Vec<i64> {
    messages.iter().map(|m| m.id).collect()
}

/// Reads one message for which the server has no image.
fn read_plain(client: &mut Client, message: Message) -> Message {
    let appid = message.appid;
    let step = client.get_message::<String>(Reading::Wait, ReadEvent::Ready).unwrap();
    assert_eq!(step, Reading::Read);
    let mut step = client
        .get_message::<String>(step, ReadEvent::Text { message: Some(message) })
        .unwrap();
    loop {
        step = match step {
            Reading::Message { message } => return message,
            Reading::AppImg { message, step: Resolution::FetchApps { lost } } => client
                .get_message::<String>(
                    Reading::AppImg { message, step: Resolution::FetchApps { lost } },
                    ReadEvent::AppImg {
                        event: ResolveEvent::Apps {
                            apps: vec![AppInfo { id: appid, image: String::new() }],
                        },
                    },
                )
                .unwrap(),
            other => panic!("unexpected step {other:?}"),
        };
    }
}

/// Catches up with a server that lists `batch` and has no image for any
/// application.
fn catch_up_plain(client: &mut Client, batch: Vec<Message>) -> (Vec<Message>, usize) {
    let mut requests = 0;
    let mut step = client.catch_up();
    loop {
        let event = match &step {
            CatchUp::Done { messages } => return (messages.clone(), requests),
            CatchUp::Fetch => {
                requests += 1;
                CatchUpEvent::Batch { messages: batch.clone() }
            },
            CatchUp::AppImg { message, step: Resolution::FetchApps { .. }, .. } => {
                requests += 1;
                CatchUpEvent::AppImg {
                    event: ResolveEvent::Apps {
                        apps: vec![AppInfo { id: message.appid, image: String::new() }],
                    },
                }
            },
            other => panic!("unexpected step {other:?}"),
        };
        step = client.get_missed_messages(step, event).unwrap();
    }
}

#[test]
fn connect_derives_the_api_address() {
    let c = client("wss://gotify.example.org", Some(3));
    assert_eq!(c.last_msg_id(), Some(3));
    assert_eq!(c.app_img_url(), Ok(get("https://gotify.example.org/application")));
    assert_eq!(c.try_connect(), Ok(get("wss://gotify.example.org/stream")));
    let c = client("ws://localhost:8080/gotify", None);
    assert_eq!(c.last_msg_id(), None);
    assert_eq!(c.app_img_url(), Ok(get("http://localhost:8080/gotify/application")));
    assert_eq!(c.try_connect(), Ok(get("ws://localhost:8080/gotify/stream")));
}

#[test]
fn connect_refuses_other_schemes() {
    for url in ["https://gotify.example.org", "http://localhost", "ftp://example.org/x", "mailto:a@b.c"]
    {
        assert_eq!(
            Client::connect(&config(url), "tok", None).err(),
            Some(RequestError::UnexpectedScheme)
        );
    }
}

#[test]
fn connect_refuses_what_is_no_url() {
    for url in ["", "gotify.example.org", "/stream", "wss://"] {
        assert_eq!(
            Client::connect(&config(url), "tok", None).err(),
            Some(RequestError::InvalidUrl)
        );
    }
}

#[test]
fn requests_carry_the_token() {
    let c = Client::connect(&config("wss://h.example"), "s3cret", None).unwrap();
    let request = c.app_img_url().unwrap();
    assert_eq!(request.header, "X-Gotify-Key");
    assert_eq!(request.key, "s3cret");
    let request = c.try_connect().unwrap();
    assert_eq!(request.header, "X-Gotify-Key");
    assert_eq!(request.key, "s3cret");
}

#[test]
fn request_for_recent_messages() {
    let c = client("ws://localhost:8080/gotify", Some(1));
    assert_eq!(
        c.missed_messages_request(),
        Ok(get("http://localhost:8080/gotify/message?limit=200"))
    );
    let c = client("wss://gotify.example.org/", Some(1));
    assert_eq!(
        c.missed_messages_request(),
        Ok(get("https://gotify.example.org/message?limit=200"))
    );
}

#[test]
fn request_to_delete_a_message() {
    let c = client("wss://gotify.example.org", None);
    assert_eq!(
        c.delete_message(42),
        Ok(Request {
            method: Method::Delete,
            url: "https://gotify.example.org/message/42".to_owned(),
            header: "X-Gotify-Key".to_owned(),
            key: "tok".to_owned(),
        })
    );
    assert_eq!(
        c.delete_message(-7).unwrap().url,
        "https://gotify.example.org/message/-7"
    );
    assert_eq!(c.last_msg_id(), None);
}

#[test]
fn request_for_an_image() {
    let c = client("wss://gotify.example.org", None);
    assert_eq!(
        c.download_app_img("image/abc.png"),
        Ok(get("https://gotify.example.org/image/abc.png"))
    );
    let c = client("ws://localhost:8080/gotify/", None);
    assert_eq!(
        c.download_app_img("image/abc.png"),
        Ok(get("http://localhost:8080/gotify/image/abc.png"))
    );
    assert_eq!(
        c.download_app_img("/static/x.png"),
        Ok(get("http://localhost:8080/static/x.png"))
    );
}

#[test]
fn default_port_of_the_api_is_left_out() {
    let c = client("wss://gotify.example.org:443/", None);
    assert_eq!(c.app_img_url(), Ok(get("https://gotify.example.org/application")));
    let c = client("wss://gotify.example.org:8443/", None);
    assert_eq!(c.app_img_url(), Ok(get("https://gotify.example.org:8443/application")));
}

#[test]
fn first_catch_up_asks_nothing() {
    let mut c = client("wss://gotify.example.org", None);
    assert_eq!(c.catch_up(), CatchUp::Done { messages: Vec::new() });
    let (missed, requests) = catch_up_plain(&mut c, vec![message(3, 1), message(2, 1)]);
    assert!(missed.is_empty());
    assert_eq!(requests, 0);
    assert_eq!(c.last_msg_id(), None);
}

#[test]
fn catch_up_around_the_last_delivered() {
    let n = 20;
    let mut c = client("wss://gotify.example.org", Some(n));
    assert_eq!(c.catch_up(), CatchUp::Fetch);
    let batch = vec![message(n + 2, 1), message(n + 1, 1), message(n, 1), message(n - 1, 1)];
    let (missed, _) = catch_up_plain(&mut c, batch);
    assert_eq!(ids(&missed), vec![n + 1, n + 2]);
    assert_eq!(c.last_msg_id(), Some(n + 2));
}

#[test]
fn catch_up_after_a_lost_connection() {
    let mut c = client("wss://gotify.example.org", None);
    assert_eq!(read_plain(&mut c, message(5, 1)).id, 5);
    assert_eq!(read_plain(&mut c, message(6, 1)).id, 6);
    assert_eq!(c.last_msg_id(), Some(6));
    let lost = c
        .get_message(Reading::Wait, ReadEvent::Interrupted("interrupted".to_owned()))
        .unwrap_err();
    assert!(lost.asks_for_reconnect());
    let mut c = client("wss://gotify.example.org", c.last_msg_id());
    let batch = vec![message(7, 1), message(6, 1), message(5, 1), message(4, 1)];
    let (missed, _) = catch_up_plain(&mut c, batch);
    assert_eq!(missed, vec![message(7, 1)]);
    assert_eq!(c.last_msg_id(), Some(7));
    assert_eq!(read_plain(&mut c, message(8, 1)).id, 8);
    assert_eq!(c.last_msg_id(), Some(8));
}

#[test]
fn catch_up_with_nothing_new() {
    let mut c = client("wss://gotify.example.org", Some(9));
    let (missed, requests) = catch_up_plain(&mut c, vec![message(9, 1), message(8, 1)]);
    assert!(missed.is_empty());
    assert_eq!(requests, 1);
    assert_eq!(c.last_msg_id(), Some(9));
}

#[test]
fn catch_up_searches_each_image_in_order() {
    let mut c = client("wss://gotify.example.org", Some(1));
    let step = c.catch_up();
    let batch = vec![message(4, 8), message(3, 9), message(2, 8), message(1, 8)];
    let step = c.get_missed_messages(step, CatchUpEvent::Batch { messages: batch }).unwrap();
    assert_eq!(
        step,
        CatchUp::AppImg {
            waiting: vec![message(3, 9), message(4, 8)],
            ready: Vec::new(),
            message: message(2, 8),
            step: Resolution::FetchApps { lost: None },
        }
    );
    assert_eq!(c.last_msg_id(), Some(1));
    let apps = vec![
        AppInfo { id: 8, image: "image/eight.png".to_owned() },
        AppInfo { id: 9, image: String::new() },
    ];
    let step = c
        .get_missed_messages(
            step,
            CatchUpEvent::AppImg { event: ResolveEvent::Apps { apps: apps.clone() } },
        )
        .unwrap();
    let step = c
        .get_missed_messages(
            step,
            CatchUpEvent::AppImg { event: ResolveEvent::Placed { path: "/c/eight.png".to_owned() } },
        )
        .unwrap();
    let step = c
        .get_missed_messages(
            step,
            CatchUpEvent::AppImg { event: ResolveEvent::File { present: true } },
        )
        .unwrap();
    assert_eq!(
        step,
        CatchUp::AppImg {
            waiting: vec![message(4, 8)],
            ready: vec![with_image(message(2, 8), Some("/c/eight.png"))],
            message: message(3, 9),
            step: Resolution::FetchApps { lost: None },
        }
    );
    let step = c
        .get_missed_messages(step, CatchUpEvent::AppImg { event: ResolveEvent::Apps { apps } })
        .unwrap();
    assert_eq!(
        step,
        CatchUp::AppImg {
            waiting: Vec::new(),
            ready: vec![with_image(message(2, 8), Some("/c/eight.png")), message(3, 9)],
            message: message(4, 8),
            step: Resolution::CheckCached { path: "/c/eight.png".to_owned() },
        }
    );
    assert_eq!(c.last_msg_id(), Some(1));
    let step = c
        .get_missed_messages(
            step,
            CatchUpEvent::AppImg { event: ResolveEvent::File { present: true } },
        )
        .unwrap();
    assert_eq!(
        step,
        CatchUp::Done {
            messages: vec![
                with_image(message(2, 8), Some("/c/eight.png")),
                message(3, 9),
                with_image(message(4, 8), Some("/c/eight.png")),
            ],
        }
    );
    assert_eq!(c.last_msg_id(), Some(4));
}

#[test]
fn catch_up_refuses_an_event_out_of_turn() {
    let mut c = client("wss://gotify.example.org", Some(1));
    assert_eq!(
        c.get_missed_messages(CatchUp::Fetch, CatchUpEvent::AppImg { event: ResolveEvent::Downloaded }),
        Err(ResolveError::Unexpected)
    );
    assert_eq!(
        c.get_missed_messages(
            CatchUp::Done { messages: Vec::new() },
            CatchUpEvent::Batch { messages: vec![message(5, 1)] }
        ),
        Err(ResolveError::Unexpected)
    );
    assert_eq!(c.last_msg_id(), Some(1));
}

#[test]
fn catch_up_gives_up_on_an_image_without_name() {
    let mut c = client("wss://gotify.example.org", Some(1));
    let step = c
        .get_missed_messages(CatchUp::Fetch, CatchUpEvent::Batch { messages: vec![message(2, 8)] })
        .unwrap();
    let apps = vec![AppInfo { id: 8, image: "image/".to_owned() }];
    assert_eq!(
        c.get_missed_messages(step, CatchUpEvent::AppImg { event: ResolveEvent::Apps { apps } }),
        Err(ResolveError::InvalidImage)
    );
    assert_eq!(c.last_msg_id(), Some(1));
}

#[test]
fn reading_waits_then_reads() {
    let mut c = client("wss://gotify.example.org", None);
    assert_eq!(c.get_message::<String>(Reading::Wait, ReadEvent::Idle), Ok(Reading::Wait));
    assert_eq!(c.get_message::<String>(Reading::Wait, ReadEvent::Ready), Ok(Reading::Read));
    assert_eq!(c.get_message::<String>(Reading::Read, ReadEvent::Ping), Ok(Reading::Flush));
    assert_eq!(c.get_message::<String>(Reading::Flush, ReadEvent::Flushed), Ok(Reading::Wait));
    assert_eq!(c.last_msg_id(), None);
}

#[test]
fn interrupted_wait_asks_for_reconnect() {
    let mut c = client("wss://gotify.example.org", Some(2));
    let interrupted = c.get_message(Reading::Wait, ReadEvent::Interrupted(4_u32));
    assert_eq!(interrupted, Err(ReadError::NeedsReconnect(NeedsReconnect::Io(4))));
    assert!(interrupted.unwrap_err().asks_for_reconnect());
    let failed = c.get_message(Reading::Wait, ReadEvent::WaitFailed(4_u32));
    assert_eq!(failed, Err(ReadError::Io(4)));
    assert!(!failed.unwrap_err().asks_for_reconnect());
    assert_eq!(c.last_msg_id(), Some(2));
}

#[test]
fn dropped_connection_asks_for_reconnect() {
    let mut c = client("wss://gotify.example.org", Some(2));
    let reset = c.get_message(Reading::Read, ReadEvent::Reset("reset".to_owned()));
    assert_eq!(reset, Err(ReadError::NeedsReconnect(NeedsReconnect::Protocol("reset".to_owned()))));
    assert!(reset.unwrap_err().asks_for_reconnect());
    let failed = c.get_message(Reading::Read, ReadEvent::ReadFailed("broken pipe".to_owned()));
    assert_eq!(failed, Err(ReadError::Io("broken pipe".to_owned())));
    assert!(!failed.unwrap_err().asks_for_reconnect());
}

#[test]
fn other_frames_break_the_protocol() {
    let mut c = client("wss://gotify.example.org", Some(2));
    let other = c.get_message::<String>(Reading::Read, ReadEvent::Other);
    assert_eq!(other, Err(ReadError::Protocol(ProtocolError::UnexpectedFrame)));
    assert!(!other.unwrap_err().asks_for_reconnect());
    let garbled = c.get_message::<String>(Reading::Read, ReadEvent::Text { message: None });
    assert_eq!(garbled, Err(ReadError::Protocol(ProtocolError::Undecodable)));
    assert_eq!(c.last_msg_id(), Some(2));
}

#[test]
fn reading_refuses_an_event_out_of_turn() {
    let mut c = client("wss://gotify.example.org", Some(2));
    assert_eq!(
        c.get_message::<String>(Reading::Wait, ReadEvent::Ping),
        Err(ReadError::Unexpected)
    );
    assert_eq!(
        c.get_message::<String>(Reading::Read, ReadEvent::Ready),
        Err(ReadError::Unexpected)
    );
    assert_eq!(
        c.get_message::<String>(Reading::Flush, ReadEvent::Idle),
        Err(ReadError::Unexpected)
    );
    assert_eq!(
        c.get_message::<String>(
            Reading::Message { message: message(9, 1) },
            ReadEvent::Flushed
        ),
        Err(ReadError::Unexpected)
    );
    assert_eq!(
        c.get_message::<String>(
            Reading::Wait,
            ReadEvent::Text { message: Some(message(9, 1)) }
        ),
        Err(ReadError::Unexpected)
    );
    assert_eq!(c.last_msg_id(), Some(2));
}

#[test]
fn message_is_delivered_with_its_image() {
    let mut c = client("wss://gotify.example.org", None);
    let step = c
        .get_message::<String>(Reading::Read, ReadEvent::Text { message: Some(message(5, 8)) })
        .unwrap();
    assert_eq!(
        step,
        Reading::AppImg { message: message(5, 8), step: Resolution::FetchApps { lost: None } }
    );
    assert_eq!(c.last_msg_id(), None);
    let apps = vec![AppInfo { id: 8, image: "image/eight.png".to_owned() }];
    let step = c
        .get_message::<String>(step, ReadEvent::AppImg { event: ResolveEvent::Apps { apps } })
        .unwrap();
    let step = c
        .get_message::<String>(
            step,
            ReadEvent::AppImg { event: ResolveEvent::Placed { path: "/c/eight.png".to_owned() } },
        )
        .unwrap();
    let step = c
        .get_message::<String>(step, ReadEvent::AppImg { event: ResolveEvent::File { present: false } })
        .unwrap();
    assert_eq!(
        step,
        Reading::AppImg {
            message: message(5, 8),
            step: Resolution::Download {
                image: "image/eight.png".to_owned(),
                path: "/c/eight.png".to_owned(),
                keep: true,
            },
        }
    );
    assert_eq!(c.last_msg_id(), None);
    let step = c
        .get_message::<String>(step, ReadEvent::AppImg { event: ResolveEvent::Downloaded })
        .unwrap();
    assert_eq!(
        step,
        Reading::Message { message: with_image(message(5, 8), Some("/c/eight.png")) }
    );
    assert_eq!(c.last_msg_id(), Some(5));
    let step = c
        .get_message::<String>(Reading::Read, ReadEvent::Text { message: Some(message(6, 8)) })
        .unwrap();
    assert_eq!(
        step,
        Reading::AppImg {
            message: message(6, 8),
            step: Resolution::CheckCached { path: "/c/eight.png".to_owned() },
        }
    );
    let step = c
        .get_message::<String>(step, ReadEvent::AppImg { event: ResolveEvent::File { present: true } })
        .unwrap();
    assert_eq!(
        step,
        Reading::Message { message: with_image(message(6, 8), Some("/c/eight.png")) }
    );
    assert_eq!(c.last_msg_id(), Some(6));
}

#[test]
fn message_of_an_application_without_image_is_delivered_at_once() {
    let mut c = client("wss://gotify.example.org", None);
    read_plain(&mut c, message(5, 8));
    let step = c
        .get_message::<String>(
            Reading::Read,
            ReadEvent::Text { message: Some(with_image(message(6, 8), Some("/stale.png"))) },
        )
        .unwrap();
    assert_eq!(step, Reading::Message { message: message(6, 8) });
    assert_eq!(c.last_msg_id(), Some(6));
}

#[test]
fn last_delivered_stays_when_an_older_message_arrives() {
    let mut c = client("wss://gotify.example.org", Some(10));
    assert_eq!(read_plain(&mut c, message(4, 1)).id, 4);
    assert_eq!(c.last_msg_id(), Some(10));
    assert_eq!(read_plain(&mut c, message(11, 1)).id, 11);
    assert_eq!(c.last_msg_id(), Some(11));
}

#[test]
fn failed_search_is_a_read_error() {
    let mut c = client("wss://gotify.example.org", None);
    let step = c
        .get_message::<String>(Reading::Read, ReadEvent::Text { message: Some(message(5, 8)) })
        .unwrap();
    let apps = vec![AppInfo { id: 8, image: "..".to_owned() }];
    let failed = c.get_message::<String>(step, ReadEvent::AppImg { event: ResolveEvent::Apps { apps } });
    assert_eq!(failed, Err(ReadError::Image(ResolveError::InvalidImage)));
    assert!(!failed.unwrap_err().asks_for_reconnect());
    assert_eq!(c.last_msg_id(), None);
}

#[test]
fn overlong_addresses_are_refused() {
    let long = "a".repeat(gotify_desktop::web::MAX_TEXT + 1);
    assert_eq!(
        Client::connect(&config(&format!("wss://gotify.example.org/{long}")), "tok", None).err(),
        Some(RequestError::InvalidUrl)
    );
    let c = client("wss://gotify.example.org", None);
    assert_eq!(c.download_app_img(&long), Err(RequestError::InvalidUrl));
    assert_eq!(c.download_app_img("https://["), Err(RequestError::InvalidUrl));
}
