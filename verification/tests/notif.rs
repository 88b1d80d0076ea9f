use gotify_desktop::message::Message;
use gotify_desktop::notif::{show, urgency, Notification, Urgency};

fn message(priority: i64, image: Option<&str>) -> Message {
    Message {
        id: 1,
        appid: 2,
        text: "the text".to_owned(),
        title: "the title".to_owned(),
        priority,
        date: "2024-05-05T10:00:00Z".to_owned(),
        app_img_filepath: image.map(|p| p.to_owned()),
    }
}

#[test]
fn urgency_by_priority() {
    for p in 0..=3 {
        assert_eq!(urgency(p), Urgency::Low);
    }
    for p in 4..=7 {
        assert_eq!(urgency(p), Urgency::Normal);
    }
    for p in 8..=10 {
        assert_eq!(urgency(p), Urgency::Critical);
    }
}

#[test]
fn urgency_off_the_scale_is_normal() {
    for p in [-1_i64, 11, 100, i64::MIN, i64::MAX] {
        assert_eq!(urgency(p), Urgency::Normal);
    }
}

#[test]
fn notification_with_image() {
    assert_eq!(
        show(&message(9, Some("/cache/app.png")), "gotify-desktop"),
        Notification {
            summary: "the title".to_owned(),
            body: "the text".to_owned(),
            urgency: Urgency::Critical,
            icon: "/cache/app.png".to_owned(),
        }
    );
}

#[test]
fn notification_without_image() {
    assert_eq!(
        show(&message(2, None), "gotify-desktop"),
        Notification {
            summary: "the title".to_owned(),
            body: "the text".to_owned(),
            urgency: Urgency::Low,
            icon: "gotify-desktop".to_owned(),
        }
    );
}
