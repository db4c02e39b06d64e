use ntfy::auth::{anonymous_user, Role, Tier, User};
use ntfy::config::Config;
use ntfy::flow::{FileOutcome, JsonBody, PublishFlow, Step};
use ntfy::publish::{PublishError, PublishRequest};

fn hs(pairs: &[(&str, &str)]) -> Vec<(String, String)> {
    pairs.iter().map(|(a, b)| (a.to_string(), b.to_string())).collect()
}

fn member() -> User {
    User { id: "u_7".to_string(), name: "phil".to_string(), hash: String::new(), role: Role::User, tier: Tier::Pro }
}

fn begin(topic: Option<&str>, headers: &[(&str, &str)], json: JsonBody, user: User) -> Step {
    PublishFlow::begin(
        "abcdefghijkl".to_string(),
        topic.map(|t| t.to_string()),
        &hs(headers),
        &Vec::new(),
        None,
        json,
        user,
        "10.0.0.1".to_string(),
    )
}

fn expect_access(step: Step) -> PublishFlow {
    match step {
        Step::CheckAccess(f) => f,
        _ => panic!("expected an access check"),
    }
}

fn request(topic: &str, message: &str) -> PublishRequest {
    PublishRequest {
        topic: Some(topic.to_string()),
        message: Some(message.to_string()),
        title: None,
        priority: None,
        tags: None,
        click: None,
        icon: None,
        actions: None,
        attachment: None,
        attach: None,
        file: None,
        filename: None,
        email: None,
        delay: None,
        at: None,
        in_str: None,
    }
}

#[test]
fn simple_text_is_published_now() {
    let c = Config::default();
    let f = expect_access(begin(Some("test_topic"), &[("title", "T")], JsonBody::Absent, anonymous_user()));
    let f = match f.access_checked(Some(true), 1_000, &c) {
        Step::ReadBody(f) => f,
        _ => panic!("expected the body to be read"),
    };
    match f.body_read(b"Hello from test", false) {
        Step::Publish(m, email) => {
            assert_eq!(m.id, "abcdefghijkl");
            assert_eq!(m.topic, "test_topic");
            assert_eq!(m.message.as_deref(), Some("Hello from test"));
            assert_eq!(m.title.as_deref(), Some("T"));
            assert_eq!(m.time, 1_000);
            assert_eq!(m.expires, Some(1_000 + 3 * 3600));
            assert_eq!(m.sender.as_deref(), Some("10.0.0.1"));
            assert!(m.user.is_none());
            assert!(m.published);
            assert!(email.is_none());
        }
        _ => panic!("expected a message"),
    }
}

#[test]
fn json_request_needs_no_body() {
    let c = Config::default();
    let f = expect_access(begin(None, &[], JsonBody::Request(request("test_json", "Hello JSON")), member()));
    match f.access_checked(Some(true), 50, &c) {
        Step::Publish(m, _) => {
            assert_eq!(m.topic, "test_json");
            assert_eq!(m.message.as_deref(), Some("Hello JSON"));
            assert_eq!(m.user.as_deref(), Some("u_7"));
            assert_eq!(m.expires, Some(50 + 24 * 3600));
        }
        _ => panic!("expected a message"),
    }
}

#[test]
fn refusals_come_in_order() {
    let c = Config::default();
    assert!(matches!(begin(None, &[], JsonBody::Unreadable, member()), Step::Refuse(PublishError::BodyUnreadable)));
    assert!(matches!(begin(None, &[], JsonBody::Invalid, member()), Step::Refuse(PublishError::MissingTopic)));
    let f = expect_access(begin(Some("t"), &[], JsonBody::Absent, anonymous_user()));
    assert!(matches!(f.access_checked(Some(false), 0, &c), Step::Refuse(PublishError::Unauthorized)));
    let f = expect_access(begin(Some("t"), &[], JsonBody::Absent, member()));
    assert!(matches!(f.access_checked(Some(false), 0, &c), Step::Refuse(PublishError::Forbidden)));
    let f = expect_access(begin(Some("t"), &[], JsonBody::Absent, member()));
    assert!(matches!(f.access_checked(None, 0, &c), Step::Refuse(PublishError::AccessCheckFailed)));
    let f = expect_access(begin(Some("t"), &[("delay", "soon")], JsonBody::Absent, member()));
    assert!(matches!(f.access_checked(Some(true), 0, &c), Step::Refuse(PublishError::InvalidDelay)));
    let f = expect_access(begin(Some("t"), &[("delay", "5")], JsonBody::Absent, member()));
    assert!(matches!(f.access_checked(Some(true), 0, &c), Step::Refuse(PublishError::DelayTooShort)));
}

#[test]
fn a_timestamp_delay_schedules_the_message() {
    let c = Config::default();
    let f = expect_access(begin(Some("test_delay"), &[("delay", "1060")], JsonBody::Absent, member()));
    let f = match f.access_checked(Some(true), 1_000, &c) {
        Step::ReadBody(f) => f,
        _ => panic!("expected the body to be read"),
    };
    match f.body_read(b"Delayed message", false) {
        Step::Publish(m, _) => {
            assert_eq!(m.time, 1060);
            assert!(!m.published);
        }
        _ => panic!("expected a message"),
    }
}

#[test]
fn a_relative_delay_is_scheduled_too() {
    let c = Config::default();
    let f = expect_access(begin(Some("test_delay"), &[("delay", "20s")], JsonBody::Absent, member()));
    let now = chrono::Utc::now().timestamp();
    match f.access_checked(Some(true), now, &c) {
        Step::ReadBody(f) => {
            assert!(f.scheduled);
            assert!(f.time >= now + 10 && f.time <= now + 21);
        }
        _ => panic!("expected the body to be read"),
    }
}

#[test]
fn an_uploaded_file_becomes_the_attachment() {
    let c = Config::default();
    let f = expect_access(begin(Some("test_topic"), &[("filename", "test.txt")], JsonBody::Absent, anonymous_user()));
    let f = match f.access_checked(Some(true), 100, &c) {
        Step::MeasureStorage(f) => f,
        _ => panic!("expected a storage check"),
    };
    let f = match f.storage_measured(0, 0, &c) {
        Step::StoreFile(f, reserve) => {
            assert_eq!(reserve, 0);
            f
        }
        _ => panic!("expected the file to be stored"),
    };
    let f = match f.file_stored(FileOutcome::Stored(19), "http://localhost") {
        Step::CountBandwidth(f, n) => {
            assert_eq!(n, 19);
            f
        }
        _ => panic!("expected the bandwidth to be counted"),
    };
    match f.bandwidth_counted(true) {
        Step::Publish(m, _) => {
            let a = m.attachment.expect("attachment");
            assert_eq!(a.name, "test.txt");
            assert_eq!(a.size, Some(19));
            assert_eq!(a.expires, Some(100 + 3 * 3600));
            assert_eq!(a.url, "http://localhost/file/abcdefghijkl");
            assert_eq!(m.message.as_deref(), Some("You received a file: test.txt"));
        }
        _ => panic!("expected a message"),
    }
}

#[test]
fn storage_and_bandwidth_refusals() {
    let c = Config::default();
    let f = expect_access(begin(Some("t"), &[("filename", "a.bin")], JsonBody::Absent, anonymous_user()));
    let f = match f.access_checked(Some(true), 0, &c) {
        Step::MeasureStorage(f) => f,
        _ => panic!("expected a storage check"),
    };
    assert!(matches!(
        f.storage_measured(c.total_attachment_size_limit, 0, &c),
        Step::Refuse(PublishError::GlobalStorageFull)
    ));
    let f = expect_access(begin(Some("t"), &[("filename", "a.bin")], JsonBody::Absent, anonymous_user()));
    let f = match f.access_checked(Some(true), 0, &c) {
        Step::MeasureStorage(f) => f,
        _ => panic!("expected a storage check"),
    };
    assert!(matches!(f.storage_measured(0, 100 * 1024 * 1024, &c), Step::Refuse(PublishError::UserStorageFull)));
    let f = expect_access(begin(Some("t"), &[("filename", "a.bin")], JsonBody::Absent, anonymous_user()));
    let f = match f.access_checked(Some(true), 0, &c) {
        Step::MeasureStorage(f) => f,
        _ => panic!("expected a storage check"),
    };
    let f = match f.storage_measured(0, 0, &c) {
        Step::StoreFile(f, _) => f,
        _ => panic!("expected the file to be stored"),
    };
    assert!(matches!(
        f.file_stored(FileOutcome::BandwidthRefused, "http://localhost"),
        Step::Refuse(PublishError::BandwidthExceeded)
    ));
}

#[test]
fn a_large_or_binary_body_is_stored_as_a_file() {
    let c = Config::default();
    let f = expect_access(begin(Some("t"), &[], JsonBody::Absent, member()));
    let f = match f.access_checked(Some(true), 0, &c) {
        Step::ReadBody(f) => f,
        _ => panic!("expected the body to be read"),
    };
    match f.body_read(&[0xff, 0xfe], false) {
        Step::StoreFile(f, reserve) => {
            assert_eq!(reserve, 2);
            assert_eq!(f.file_name, "attachment.bin");
            assert!(matches!(
                f.file_stored(FileOutcome::WriteFailed, "http://localhost"),
                Step::Refuse(PublishError::AttachmentWriteFailed)
            ));
        }
        _ => panic!("expected the body to be stored"),
    }
}

#[test]
fn an_attachment_link_needs_no_body() {
    let c = Config::default();
    let f = expect_access(begin(Some("t"), &[("attach", "https://x.example/a.jpg"), ("email", "me@example.org")], JsonBody::Absent, member()));
    let f = match f.access_checked(Some(true), 0, &c) {
        Step::MeasureStorage(f) => f,
        _ => panic!("expected a storage check"),
    };
    match f.storage_measured(0, 0, &c) {
        Step::Publish(m, email) => {
            let a = m.attachment.expect("attachment");
            assert_eq!(a.name, "attachment");
            assert_eq!(a.url, "https://x.example/a.jpg");
            assert!(a.size.is_none());
            assert_eq!(m.message.as_deref(), Some("You received a file: attachment"));
            assert_eq!(email.as_deref(), Some("me@example.org"));
        }
        _ => panic!("expected a message"),
    }
}

#[test]
fn an_upload_past_the_daily_bandwidth_is_discarded() {
    let c = Config::default();
    let f = expect_access(begin(Some("t"), &[("filename", "big.bin")], JsonBody::Absent, anonymous_user()));
    let f = match f.access_checked(Some(true), 0, &c) {
        Step::MeasureStorage(f) => f,
        _ => panic!("expected a storage check"),
    };
    let f = match f.storage_measured(0, 0, &c) {
        Step::StoreFile(f, 0) => f,
        _ => panic!("expected the file to be stored"),
    };
    let f = match f.file_stored(FileOutcome::Stored(1000), "http://localhost") {
        Step::CountBandwidth(f, 1000) => f,
        _ => panic!("expected the whole file to be counted"),
    };
    match f.bandwidth_counted(false) {
        Step::Discard(id, PublishError::BandwidthExceeded) => assert_eq!(id, "abcdefghijkl"),
        _ => panic!("expected the file to be discarded"),
    }
}

#[test]
fn a_stored_body_is_counted_whole_after_writing() {
    let c = Config::default();
    let f = expect_access(begin(Some("t"), &[], JsonBody::Absent, member()));
    let f = match f.access_checked(Some(true), 0, &c) {
        Step::ReadBody(f) => f,
        _ => panic!("expected the body to be read"),
    };
    let f = match f.body_read(&[0xff; 10], true) {
        Step::StoreFile(f, 10) => f,
        _ => panic!("expected the body to be stored"),
    };
    assert!(matches!(f.file_stored(FileOutcome::Stored(25), "http://localhost"), Step::CountBandwidth(_, 25)));
}

#[test]
fn a_relative_delay_counts_from_the_given_clock() {
    let c = Config::default();
    let f = expect_access(begin(Some("t"), &[("in", "30m")], JsonBody::Absent, member()));
    match f.access_checked(Some(true), 1_000_000, &c) {
        Step::ReadBody(f) => {
            assert!(f.scheduled);
            assert_eq!(f.time, 1_001_800);
        }
        _ => panic!("expected the body to be read"),
    }
}
