use ntfy::actions::StringMap;
use ntfy::fcm::to_fcm_message;
use ntfy::message::{
    due_message_from_row, encode_raw, message_from_row, message_to_row, open_message, Attachment,
    Message,
};

fn base_message() -> Message {
    Message {
        id: "abc123".to_string(),
        sequence_id: None,
        time: 1700000000,
        expires: Some(1700003600),
        event: "message".to_string(),
        topic: "alerts".to_string(),
        title: Some("Disk".to_string()),
        message: Some("line one\nline two".to_string()),
        priority: Some(5),
        tags: Some(vec!["warning".to_string(), "disk".to_string()]),
        click: None,
        icon: None,
        actions: None,
        attachment: None,
        poll_id: Some("p1".to_string()),
        content_type: Some("text/plain".to_string()),
        encoding: None,
        sender: Some("10.0.0.1".to_string()),
        user: None,
        published: true,
    }
}

fn get<'a>(m: &'a StringMap, k: &str) -> Option<&'a str> {
    m.entries.iter().rev().find(|(key, _)| key == k).map(|(_, v)| v.as_str())
}

#[test]
fn row_roundtrip_fills_in_options() {
    let mut m = base_message();
    m.attachment = Some(Attachment {
        name: "f.txt".to_string(),
        type_: None,
        size: Some(12),
        expires: None,
        url: "http://h/file/abc123".to_string(),
    });
    let row = message_to_row(&m, String::new());
    assert_eq!(row.tags, "warning,disk");
    assert_eq!(row.sequence_id, "");
    assert_eq!(row.attachment_size, 12);
    assert_eq!(row.attachment_expires, 0);
    assert_eq!(row.actions, "");
    let back = message_from_row(row, None);
    assert_eq!(back.id, "abc123");
    assert_eq!(back.tags, Some(vec!["warning".to_string(), "disk".to_string()]));
    assert_eq!(back.sequence_id.as_deref(), Some(""));
    assert_eq!(back.click.as_deref(), Some(""));
    assert_eq!(back.priority, Some(5));
    assert!(back.poll_id.is_none());
    assert!(back.actions.is_none());
    let a = back.attachment.unwrap();
    assert_eq!(a.name, "f.txt");
    assert_eq!(a.type_.as_deref(), Some(""));
    assert_eq!(a.expires, Some(0));
    assert!(back.published);
}

#[test]
fn row_without_tags_or_attachment() {
    let mut m = base_message();
    m.tags = None;
    m.priority = None;
    m.published = false;
    let row = message_to_row(&m, "[]".to_string());
    assert_eq!(row.tags, "");
    assert_eq!(row.priority, 0);
    assert_eq!(row.actions, "");
    let back = due_message_from_row(row, None);
    assert!(back.tags.is_none());
    assert!(back.attachment.is_none());
    assert_eq!(back.priority, Some(0));
    assert!(!back.published);
}

#[test]
fn raw_lines() {
    assert_eq!(encode_raw(&base_message()), "line one line two\n");
    let mut m = base_message();
    m.message = None;
    assert_eq!(encode_raw(&m), "\n");
    let o = open_message("x".to_string(), 5, "t".to_string());
    assert_eq!(encode_raw(&o), "\n");
    assert_eq!(o.event, "open");
    assert!(o.published);
    assert!(o.title.is_none());
}

#[test]
fn fcm_for_a_notification() {
    let m = base_message();
    let f = to_fcm_message(&m, None);
    let p = &f.message;
    assert_eq!(p.topic, "alerts");
    assert_eq!(get(&p.data, "id"), Some("abc123"));
    assert_eq!(get(&p.data, "time"), Some("1700000000"));
    assert_eq!(get(&p.data, "priority"), Some("5"));
    assert_eq!(get(&p.data, "tags"), Some("warning,disk"));
    assert_eq!(get(&p.data, "title"), Some("Disk"));
    assert_eq!(get(&p.data, "poll_id"), None);
    assert_eq!(p.android.as_ref().unwrap().priority, "high");
    let apns = p.apns.as_ref().unwrap();
    assert_eq!(apns.payload.aps.mutable_content, Some(1));
    assert_eq!(apns.payload.aps.content_available, None);
    let alert = apns.payload.aps.alert.as_ref().unwrap();
    assert_eq!(alert.body, "line one\nline two");
    assert_eq!(get(&apns.payload.custom_data, "tags"), Some("warning,disk"));
}

#[test]
fn fcm_for_background_events() {
    let mut m = base_message();
    m.event = "keepalive".to_string();
    m.priority = None;
    let f = to_fcm_message(&m, None);
    let apns = f.message.apns.as_ref().unwrap();
    assert_eq!(get(&apns.headers, "apns-push-type"), Some("background"));
    assert_eq!(get(&apns.headers, "apns-priority"), Some("5"));
    assert_eq!(apns.payload.aps.content_available, Some(1));
    assert!(apns.payload.aps.alert.is_none());
    assert!(f.message.android.is_none());
    assert_eq!(get(&f.message.data, "title"), None);
}

#[test]
fn fcm_for_poll_requests() {
    let mut m = base_message();
    m.event = "poll_request".to_string();
    let f = to_fcm_message(&m, None);
    assert_eq!(get(&f.message.data, "message"), Some("New message"));
    assert_eq!(get(&f.message.data, "poll_id"), Some("p1"));
    let alert = f.message.apns.as_ref().unwrap().payload.aps.alert.as_ref().unwrap();
    assert_eq!(alert.body, "New message");
}

#[test]
fn fcm_with_actions_and_attachment() {
    let mut m = base_message();
    m.message = None;
    m.attachment = Some(Attachment {
        name: "a.png".to_string(),
        type_: Some("image/png".to_string()),
        size: Some(-3),
        expires: Some(9),
        url: "u".to_string(),
    });
    let f = to_fcm_message(&m, Some("[]".to_string()));
    assert_eq!(get(&f.message.data, "actions"), Some("[]"));
    assert_eq!(get(&f.message.data, "attachment_size"), Some("-3"));
    assert_eq!(get(&f.message.data, "attachment_type"), Some("image/png"));
    let alert = f.message.apns.as_ref().unwrap().payload.aps.alert.as_ref().unwrap();
    assert_eq!(alert.body, "New message");
}
