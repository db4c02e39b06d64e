use ntfy::auth::{anonymous_user, Role, Tier, User};
use ntfy::config::Config;
use ntfy::publish::{
    apply_request, attachment_expiry, attachment_limits, attachment_notice, body_overflows,
    check_publish_access, check_storage, classify_body, fields_from_request, file_url,
    linked_attachment, new_message, parse_priority, new_message_id, schedule_decision, schedule_publish,
    stored_attachment, Body, PublishError, PublishRequest,
};

fn hs(pairs: &[(&str, &str)]) -> Vec<(String, String)> {
    pairs.iter().map(|(a, b)| (a.to_string(), b.to_string())).collect()
}

fn empty_request() -> PublishRequest {
    PublishRequest {
        topic: None,
        message: None,
        title: None,
        priority: None,
        tags: None,
        click: None,
        icon: None,
        actions: None,
        attachment: None,
        attach: None,
        file: None,
        filename: None,
        email: None,
        delay: None,
        at: None,
        in_str: None,
    }
}

fn user(role: Role, tier: Tier) -> User {
    User { id: "u_9".to_string(), name: "n".to_string(), hash: String::new(), role, tier }
}

#[test]
fn headers_set_the_fields() {
    let h = hs(&[
        ("title", "Hello"),
        ("priority", "high"),
        ("x-priority", "4"),
        ("x-tags", " a , b ,c"),
        ("x-click", "https://c.example"),
        ("file", "report.pdf"),
        ("at", "10m"),
        ("x-attach", "https://files.example/x"),
    ]);
    let p = hs(&[("email", "me@example.org"), ("delay", "1h")]);
    let f = fields_from_request(Some("topic1".to_string()), &h, &p, None);
    assert_eq!(f.topic.as_deref(), Some("topic1"));
    assert_eq!(f.title.as_deref(), Some("Hello"));
    assert_eq!(f.priority, Some(4));
    assert_eq!(f.tags, Some(vec!["a".to_string(), "b".to_string(), "c".to_string()]));
    assert_eq!(f.click.as_deref(), Some("https://c.example"));
    assert_eq!(f.filename.as_deref(), Some("report.pdf"));
    assert_eq!(f.delay.as_deref(), Some("10m"));
    assert_eq!(f.email.as_deref(), Some("me@example.org"));
    assert_eq!(f.attachment_url.as_deref(), Some("https://files.example/x"));
    assert!(f.message.is_none());
    assert!(f.icon.is_none());
}

#[test]
fn query_parameters_come_last() {
    let f = fields_from_request(None, &hs(&[]), &hs(&[("in", "5m"), ("at", "1h")]), None);
    assert_eq!(f.delay.as_deref(), Some("1h"));
    assert!(f.topic.is_none());
}

#[test]
fn json_request_overrides() {
    let f = fields_from_request(Some("t".to_string()), &hs(&[("title", "H")]), &hs(&[]), None);
    let mut r = empty_request();
    r.topic = Some("json_topic".to_string());
    r.message = Some("Hello JSON".to_string());
    r.attachment = Some("a".to_string());
    r.attach = Some("b".to_string());
    r.delay = Some("1m".to_string());
    r.in_str = Some("2m".to_string());
    let g = apply_request(f, r);
    assert_eq!(g.topic.as_deref(), Some("json_topic"));
    assert_eq!(g.message.as_deref(), Some("Hello JSON"));
    assert_eq!(g.title.as_deref(), Some("H"));
    assert_eq!(g.attachment_url.as_deref(), Some("b"));
    assert_eq!(g.delay.as_deref(), Some("2m"));
}

#[test]
fn access_refusals() {
    assert_eq!(check_publish_access(Some(true), Role::Anonymous), Ok(()));
    assert_eq!(check_publish_access(Some(false), Role::Anonymous), Err(PublishError::Unauthorized));
    assert_eq!(check_publish_access(Some(false), Role::User), Err(PublishError::Forbidden));
    assert_eq!(check_publish_access(None, Role::Admin), Err(PublishError::AccessCheckFailed));
}

#[test]
fn refusal_statuses_and_texts() {
    let all = [
        (PublishError::RateLimited, 429, "Limit reached"),
        (PublishError::BodyUnreadable, 400, "Failed to read body"),
        (PublishError::MissingTopic, 400, "Missing topic"),
        (PublishError::Unauthorized, 401, "Unauthorized"),
        (PublishError::Forbidden, 403, "Forbidden"),
        (PublishError::AccessCheckFailed, 500, ""),
        (PublishError::DelayTooShort, 400, "Delay too short"),
        (PublishError::DelayTooLong, 400, "Delay too long"),
        (PublishError::InvalidDelay, 400, "Invalid delay format"),
        (PublishError::GlobalStorageFull, 507, "Global storage limit reached"),
        (PublishError::UserStorageFull, 429, "User storage limit reached"),
        (PublishError::BandwidthExceeded, 429, "Daily bandwidth limit reached"),
        (PublishError::AttachmentWriteFailed, 500, "Failed to write attachment"),
        (PublishError::ProcessingFailed, 500, "Failed to process message"),
    ];
    for (e, status, text) in all {
        assert_eq!(e.status(), status);
        assert_eq!(e.text(), text);
    }
}

#[test]
fn schedule_bounds() {
    let now = 1_000_000;
    assert_eq!(schedule_decision(Ok(now + 5), now, 10, 100), Err(PublishError::DelayTooShort));
    assert_eq!(schedule_decision(Ok(now + 101), now, 10, 100), Err(PublishError::DelayTooLong));
    assert_eq!(schedule_decision(Ok(now + 50), now, 10, 100), Ok(Some(now + 50)));
    assert_eq!(schedule_decision(Ok(now - 50), now, 10, 100), Ok(None));
    assert_eq!(schedule_decision(Err("bad".to_string()), now, 10, 100), Err(PublishError::InvalidDelay));
    assert_eq!(schedule_publish(None, now, 10, 100), Ok(None));
    assert_eq!(schedule_publish(Some("soon"), now, 10, 100), Err(PublishError::InvalidDelay));
    assert_eq!(schedule_publish(Some("1000050"), now, 10, 100), Ok(Some(1000050)));
}

#[test]
fn relative_delay_is_scheduled_from_the_clock() {
    let now = chrono::Utc::now().timestamp();
    match schedule_publish(Some("20s"), now, 10, 3 * 24 * 3600) {
        Ok(Some(t)) => assert!(t >= now + 20 && t <= now + 25),
        other => panic!("unexpected {:?}", other),
    }
}

#[test]
fn storage_and_body_checks() {
    assert_eq!(check_storage(10, 10, 0, 5), Err(PublishError::GlobalStorageFull));
    assert_eq!(check_storage(1, 10, 5, 5), Err(PublishError::UserStorageFull));
    assert_eq!(check_storage(1, 10, 4, 5), Ok(()));
    assert!(body_overflows(4000, 97, 4096));
    assert!(!body_overflows(4000, 96, 4096));
    assert!(!body_overflows(usize::MAX, 0, usize::MAX));
    match classify_body(b"hello".to_vec(), false) {
        Body::Text(t) => assert_eq!(t, "hello"),
        Body::File => panic!("expected text"),
    }
    match classify_body(Vec::new(), false) {
        Body::Text(t) => assert_eq!(t, ""),
        Body::File => panic!("expected text"),
    }
    assert!(matches!(classify_body(vec![0xc3, 0x28], false), Body::File));
    assert!(matches!(classify_body(b"ok".to_vec(), true), Body::File));
}

#[test]
fn attachment_records() {
    assert_eq!(file_url("http://h.example", "abc"), "http://h.example/file/abc");
    let a = stored_attachment("f.bin".to_string(), 42, 77, "http://h", "id1");
    assert_eq!(a.url, "http://h/file/id1");
    assert_eq!(a.size, Some(42));
    assert_eq!(a.expires, Some(77));
    let l = linked_attachment("https://x/y".to_string(), None);
    assert_eq!(l.name, "attachment");
    assert!(l.size.is_none());
    assert_eq!(attachment_notice(None, "f.bin").as_deref(), Some("You received a file: f.bin"));
    assert_eq!(attachment_notice(Some("hi".to_string()), "f.bin").as_deref(), Some("hi"));
}

#[test]
fn attachment_limits_by_user() {
    let c = Config::default();
    assert_eq!(attachment_limits(&anonymous_user(), &c), (100 * 1024 * 1024, 3 * 3600));
    assert_eq!(attachment_limits(&user(Role::User, Tier::Pro), &c), (5 * 1024 * 1024 * 1024, 24 * 3600));
    assert_eq!(attachment_expiry(100, 20), 120);
    assert_eq!(attachment_expiry(i64::MAX, 1), i64::MIN);
}

#[test]
fn the_published_message() {
    let f = fields_from_request(Some("t".to_string()), &hs(&[("title", "T")]), &hs(&[]), None);
    let m = new_message("id".to_string(), 5, "t".to_string(), f, "1.2.3.4".to_string(), &user(Role::User, Tier::Free), true, 9);
    assert_eq!(m.event, "message");
    assert_eq!(m.title.as_deref(), Some("T"));
    assert_eq!(m.user.as_deref(), Some("u_9"));
    assert_eq!(m.sender.as_deref(), Some("1.2.3.4"));
    assert_eq!(m.expires, Some(9));
    assert!(!m.published);
    let f = fields_from_request(None, &hs(&[]), &hs(&[]), None);
    let m = new_message("id".to_string(), 5, "t".to_string(), f, "ip".to_string(), &anonymous_user(), false, 9);
    assert!(m.user.is_none());
    assert!(m.published);
    assert_eq!(new_message_id().len(), 12);
}

#[test]
fn priority_names_and_numbers() {
    assert_eq!(parse_priority("min"), Some(1));
    assert_eq!(parse_priority("low"), Some(2));
    assert_eq!(parse_priority("default"), Some(3));
    assert_eq!(parse_priority("high"), Some(4));
    assert_eq!(parse_priority("High"), Some(4));
    assert_eq!(parse_priority("max"), Some(5));
    assert_eq!(parse_priority("URGENT"), Some(5));
    assert_eq!(parse_priority("2"), Some(2));
    assert_eq!(parse_priority("highest"), None);
    assert_eq!(parse_priority("h1gh"), None);
}

#[test]
fn readme_publish_example() {
    let h = hs(&[("title", "Server Status"), ("tags", "floppy_disk,green_circle"), ("priority", "high")]);
    let f = fields_from_request(Some("mytopic".to_string()), &h, &Vec::new(), None);
    assert_eq!(f.title.as_deref(), Some("Server Status"));
    assert_eq!(f.tags, Some(vec!["floppy_disk".to_string(), "green_circle".to_string()]));
    assert_eq!(f.priority, Some(4));
}
