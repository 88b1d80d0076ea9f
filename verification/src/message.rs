//! Messages and applications as the server describes them.

use vstd::prelude::*;

verus! {

/// One notification pushed by the server.
#[derive(Debug, Clone, PartialEq, Eq)]
pub struct Message {
    /// Identifier given by the server, increasing with each new message.
    pub id: i64,
    /// Identifier of the application that sent the message.
    pub appid: i64,
    /// Body of the message.
    pub text: String,
    /// Title of the message.
    pub title: String,
    /// Priority on the server's scale.
    pub priority: i64,
    /// Date and time of the message, as the server wrote it.
    pub date: String,
    /// Local path of the application's image, once it has been resolved.
    pub app_img_filepath: Option<String>,
}

/// A `Message` as plain text.
pub struct MessageView {
    pub id: i64,
    pub appid: i64,
    pub text: Seq<char>,
    pub title: Seq<char>,
    pub priority: i64,
    pub date: Seq<char>,
    pub app_img_filepath: Option<Seq<char>>,
}

impl View for Message {
    type V = MessageView;

    open spec fn view(&self) -> MessageView {
        MessageView {
            id: self.id,
            appid: self.appid,
            text: self.text@,
            title: self.title@,
            priority: self.priority,
            date: self.date@,
            app_img_filepath: match self.app_img_filepath {
                Some(path) => Some(path@),
                None => None,
            },
        }
    }
}

/// `msg` with the outcome of a finished search for its image.
pub open spec fn with_image(msg: MessageView, path: Option<Seq<char>>) -> MessageView {
    MessageView { app_img_filepath: path, ..msg }
}

/// What the server tells about one application.
#[derive(Debug, Clone, PartialEq, Eq)]
pub struct AppInfo {
    /// Identifier of the application.
    pub id: i64,
    /// Location of the application's image, relative to the server's
    /// address; empty when it has none.
    pub image: String,
}

/// An `AppInfo` as plain text.
pub struct AppInfoView {
    pub id: i64,
    pub image: Seq<char>,
}

impl View for AppInfo {
    type V = AppInfoView;

    open spec fn view(&self) -> AppInfoView {
        AppInfoView { id: self.id, image: self.image@ }
    }
}

/// The messages of a list, each as plain text.
pub open spec fn views(messages: Seq<Message>) -> Seq<MessageView> {
    messages.map_values(|m: Message| m@)
}

/// The identifiers of a sequence of messages, in the same order.
pub open spec fn ids(messages: Seq<MessageView>) -> Seq<i64> {
    messages.map_values(|m: MessageView| m.id)
}

} // verus!
