use gotify_desktop::catch_up::missed_messages;
use gotify_desktop::delivery::{advance, advance_all};
use gotify_desktop::message::Message;

fn message(id: i64) -> Message {
    Message {
        id,
        appid: 1,
        text: format!("text {id}"),
        title: format!("title {id}"),
        priority: 5,
        date: "2024-01-01T00:00:00Z".to_owned(),
        app_img_filepath: None,
    }
}

fn ids(messages: &[Message]) -> Vec<i64> {
    messages.iter().map(|m| m.id).collect()
}

#[test]
fn missed_messages_are_newer_and_oldest_first() {
    let batch = vec![message(12), message(11), message(10), message(9)];
    let kept = missed_messages(Some(10), batch);
    assert_eq!(ids(&kept), vec![11, 12]);
    assert_eq!(kept[0].title, "title 11");
    assert_eq!(kept[1].text, "text 12");
}

#[test]
fn missed_messages_around_the_last_delivered() {
    for n in [-3_i64, 0, 7, 1_000_000] {
        let batch = vec![message(n + 2), message(n + 1), message(n), message(n - 1)];
        let kept = missed_messages(Some(n), batch);
        assert_eq!(ids(&kept), vec![n + 1, n + 2]);
    }
}

#[test]
fn nothing_is_missed_before_the_first_delivery() {
    let batch = vec![message(3), message(2), message(1)];
    assert!(missed_messages(None, batch).is_empty());
}

#[test]
fn nothing_is_missed_when_all_is_old() {
    let batch = vec![message(3), message(2), message(1)];
    assert!(missed_messages(Some(3), batch).is_empty());
    assert!(missed_messages(Some(9), Vec::new()).is_empty());
}

#[test]
fn missed_messages_keep_the_order_of_the_list() {
    let batch = vec![message(4), message(9), message(6), message(5)];
    let kept = missed_messages(Some(4), batch);
    assert_eq!(ids(&kept), vec![5, 6, 9]);
}

#[test]
fn missed_messages_at_the_ends_of_the_range() {
    let batch = vec![message(i64::MAX), message(i64::MIN)];
    assert_eq!(ids(&missed_messages(Some(i64::MIN), batch)), vec![i64::MAX]);
    let batch = vec![message(i64::MAX), message(i64::MIN)];
    assert!(missed_messages(Some(i64::MAX), batch).is_empty());
}

#[test]
fn last_delivered_never_moves_down() {
    assert_eq!(advance(None, 4), Some(4));
    assert_eq!(advance(Some(4), 9), Some(9));
    assert_eq!(advance(Some(9), 4), Some(9));
    assert_eq!(advance(Some(9), 9), Some(9));
    assert_eq!(advance(None, -2), Some(-2));
}

#[test]
fn last_delivered_moves_to_the_highest() {
    let delivered = vec![message(5), message(8), message(6)];
    assert_eq!(advance_all(Some(2), &delivered), Some(8));
    assert_eq!(advance_all(None, &delivered), Some(8));
    assert_eq!(advance_all(Some(11), &delivered), Some(11));
    assert_eq!(advance_all(Some(3), &Vec::new()), Some(3));
    assert_eq!(advance_all(None, &Vec::new()), None);
}
