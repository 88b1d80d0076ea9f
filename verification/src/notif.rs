//! What a message looks like as a desktop notification.

use vstd::prelude::*;
use crate::message::{Message, MessageView};

verus! {

/// How pressing a notification is.
#[derive(Debug, Clone, Copy, PartialEq, Eq, Structural)]
pub enum Urgency {
    Low,
    Normal,
    Critical,
}

/// The urgency that goes with a priority: low up to 3, normal up to 7,
/// critical up to 10, and normal for anything off the scale.
pub open spec fn urgency_of(priority: i64) -> Urgency {
    if 0 <= priority <= 3 {
        Urgency::Low
    } else if 8 <= priority <= 10 {
        Urgency::Critical
    } else {
        Urgency::Normal
    }
}

/// Picks the urgency that goes with a priority.
pub fn urgency(priority: i64) -> (picked: Urgency)
    ensures
        picked == urgency_of(priority),
{
    if 0 <= priority && priority <= 3 {
        Urgency::Low
    } else if 4 <= priority && priority <= 7 {
        Urgency::Normal
    } else if 8 <= priority && priority <= 10 {
        Urgency::Critical
    } else {
        Urgency::Normal
    }
}

/// A notification, ready to be shown.
#[derive(Debug, Clone, PartialEq, Eq)]
pub struct Notification {
    /// The headline.
    pub summary: String,
    /// The text under the headline.
    pub body: String,
    /// How pressing it is.
    pub urgency: Urgency,
    /// The icon: a path to an image, or the name of an icon.
    pub icon: String,
}

/// A `Notification` as plain text.
pub struct NotificationView {
    pub summary: Seq<char>,
    pub body: Seq<char>,
    pub urgency: Urgency,
    pub icon: Seq<char>,
}

impl View for Notification {
    type V = NotificationView;

    open spec fn view(&self) -> NotificationView {
        NotificationView {
            summary: self.summary@,
            body: self.body@,
            urgency: self.urgency,
            icon: self.icon@,
        }
    }
}

/// The notification for `msg`: its title over its text, with the urgency of
/// its priority and the image of its application, or the icon `fallback`
/// where it has no image.
pub open spec fn shown(msg: MessageView, fallback: Seq<char>) -> NotificationView {
    NotificationView {
        summary: msg.title,
        body: msg.text,
        urgency: urgency_of(msg.priority),
        icon: match msg.app_img_filepath {
            Some(path) => path,
            None => fallback,
        },
    }
}

/// Makes the notification for `msg`. `fallback` is the icon of a message
/// whose application has no image.
pub fn show(msg: &Message, fallback: &str) -> (made: Notification)
    ensures
        made@ == shown(msg@, fallback@),
{
    Notification {
        summary: msg.title.clone(),
        body: msg.text.clone(),
        urgency: urgency(msg.priority),
        icon: match &msg.app_img_filepath {
            Some(path) => path.clone(),
            None => fallback.to_owned(),
        },
    }
}

} // verus!
