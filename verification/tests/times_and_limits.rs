use ntfy::config::{cache_database_url, file_database_url, services, Config};
use ntfy::gateway::{
    asset_content_type, asset_path, file_id, matrix_route, matrix_topic_inactive, plan_email,
    subscriber_id, first_pushkey, rejection, MailError, Mailer, MatrixDevice, MatrixNotification, MatrixRequest,
    MatrixRoute,
};
use ntfy::auth::anonymous_user;
use ntfy::limits::{bandwidth_step, prune_cutoff, StorageQuota};
use ntfy::message::open_message;
use ntfy::schedule::{cached_since, future_time_at, parse_future_time, parse_time_spec, poll_param, since_param, Since, TimeSpec};

#[test]
fn time_texts() {
    assert_eq!(parse_time_spec("1700000000"), Ok(TimeSpec::At(1700000000)));
    assert_eq!(parse_time_spec("30m"), Ok(TimeSpec::After(1800)));
    assert_eq!(parse_time_spec("2h"), Ok(TimeSpec::After(7200)));
    assert_eq!(parse_time_spec("3d"), Ok(TimeSpec::After(259200)));
    assert_eq!(parse_time_spec("45s"), Ok(TimeSpec::After(45)));
    assert_eq!(parse_time_spec("2x"), Err("Invalid time format".to_string()));
    assert_eq!(parse_time_spec("tomorrow"), Err("Invalid time format".to_string()));
    assert_eq!(parse_time_spec("99999999999999999999s"), Err("Invalid amount".to_string()));
    assert_eq!(parse_time_spec("\u{663}s"), Err("Invalid amount".to_string()));
    assert_eq!(parse_time_spec("9223372036854775807d"), Err("Time out of range".to_string()));
    assert_eq!(parse_future_time("-5"), Ok(-5));
    assert_eq!(parse_future_time("9999999999999d"), Err("Time out of range".to_string()));
}

#[test]
fn relative_times_count_from_the_clock() {
    assert_eq!(future_time_at("10m", 1_700_000_000), Ok(1_700_000_600));
    assert_eq!(future_time_at("1700000000", 5), Ok(1_700_000_000));
    assert_eq!(future_time_at("soon", 5), Err("Invalid time format".to_string()));
    // Past the end of the times chrono can hold.
    assert_eq!(future_time_at("100000000000000s", 1_700_000_000), Err("Time out of range".to_string()));
    // A span longer than chrono's longest.
    assert_eq!(future_time_at("9223372036854776s", 0), Err("Time out of range".to_string()));
    let now = chrono::Utc::now().timestamp();
    let t = parse_future_time("1h").unwrap();
    assert!(t >= now + 3600 && t <= now + 3605);
}

#[test]
fn since_values() {
    assert_eq!(Since::parse("all"), Since::All);
    assert_eq!(Since::parse("none"), Since::Nothing);
    assert_eq!(Since::parse("latest"), Since::Latest);
    assert_eq!(Since::parse("123"), Since::Time(123));
    assert_eq!(Since::parse("whenever"), Since::Nothing);
    match Since::parse("1h") {
        Since::Time(t) => assert!(t > chrono::Utc::now().timestamp()),
        other => panic!("unexpected {:?}", other),
    }
    assert_eq!(since_param(None), Since::Nothing);
    assert_eq!(cached_since(Since::All), Some(0));
    assert_eq!(cached_since(Since::Latest), Some(0));
    assert_eq!(cached_since(Since::Time(7)), Some(7));
    assert_eq!(cached_since(Since::Nothing), None);
    assert!(poll_param(Some("1")) && poll_param(Some("yes")));
    assert!(!poll_param(Some("true")) && !poll_param(None));
}

#[test]
fn storage_quota() {
    let mut q = StorageQuota::new(90, 100);
    assert!(q.has_room());
    assert!(!q.try_reserve(11));
    assert_eq!(q.used, 90);
    assert!(q.try_reserve(10));
    assert_eq!(q.used, 100);
    assert!(!q.has_room());
    q.release(10);
    assert_eq!(q.used, 90);
    q.release(1000);
    assert_eq!(q.used, 0);
    let mut big = StorageQuota::new(u64::MAX, u64::MAX);
    assert!(!big.try_reserve(1));
}

#[test]
fn daily_bandwidth() {
    let s = bandwidth_step(400, 10, 0, 100, 500);
    assert!(s.allowed && !s.reset && s.bytes == 500);
    let s = bandwidth_step(400, 10, 0, 101, 500);
    assert!(!s.allowed && s.bytes == 400);
    let s = bandwidth_step(400, 86400, 1, 101, 500);
    assert!(s.allowed && s.reset && s.bytes == 101);
    let s = bandwidth_step(400, 86400, 0, 0, 500);
    assert!(s.allowed && !s.reset && s.bytes == 400);
    let s = bandwidth_step(0, 0, 0, usize::MAX, 10);
    assert!(!s.allowed);
}

#[test]
fn prune_time() {
    assert_eq!(prune_cutoff(100_000, 43200), 56800);
}

#[test]
fn matrix_routes() {
    assert!(matches!(matrix_route("https://other.example/up1", "http://127.0.0.1:12345"), MatrixRoute::Reject));
    assert!(matches!(matrix_route("bad key", "bad"), MatrixRoute::InvalidUrl));
    match matrix_route("http://127.0.0.1:12345//upABC?up=1&x=a%20b", "http://127.0.0.1:12345") {
        MatrixRoute::Publish { topic, params } => {
            assert_eq!(topic, "upABC");
            assert_eq!(params, vec![("up".to_string(), "1".to_string()), ("x".to_string(), "a b".to_string())]);
        }
        _ => panic!("expected a route"),
    }
    assert!(matrix_topic_inactive(43201));
    assert!(!matrix_topic_inactive(43200));
    assert!(subscriber_id(&anonymous_user()).is_none());
}

#[test]
fn email_plan() {
    let mut c = Config::default();
    let m = open_message("i".to_string(), 1, "alerts".to_string());
    assert!(matches!(plan_email(&c, "a@b.c", &m), Ok(None)));
    c.smtp_sender_addr = "smtp.example.org:587".to_string();
    c.smtp_sender_from = "ntfy@example.org".to_string();
    let p = plan_email(&c, "a@b.c", &m).unwrap().unwrap();
    assert_eq!(p.host, "smtp.example.org");
    assert_eq!(p.subject, "ntfy notification");
    assert_eq!(p.body, "\n\n--\nSent via http://localhost/alerts");
    assert!(p.credentials.is_none());
    c.smtp_sender_user = "u".to_string();
    c.smtp_sender_pass = "p".to_string();
    let p = plan_email(&c, "a@b.c", &m).unwrap().unwrap();
    assert_eq!(p.credentials, Some(("u".to_string(), "p".to_string())));
}

#[test]
fn mailer_plans_with_its_settings() {
    let mut c = Config::default();
    c.smtp_sender_addr = "mail.example.org".to_string();
    c.smtp_sender_from = "ntfy@example.org".to_string();
    let mailer = Mailer::new(std::sync::Arc::new(c));
    let mut m = open_message("i".to_string(), 1, "alerts".to_string());
    m.title = Some("Disk".to_string());
    m.message = Some("full".to_string());
    let p = mailer.plan("ops@example.org", &m).unwrap().unwrap();
    assert_eq!(p.host, "mail.example.org");
    assert_eq!(p.from, "ntfy@example.org");
    assert_eq!(p.to, "ops@example.org");
    assert_eq!(p.subject, "Disk");
    assert_eq!(p.body, "full\n\n--\nSent via http://localhost/alerts");
    let quiet = Mailer::new(std::sync::Arc::new(Config::default()));
    assert!(matches!(quiet.plan("ops@example.org", &m), Ok(None)));
    assert!(matches!(mailer.plan("not an address", &m), Err(MailError::InvalidTo)));
}

#[test]
fn bandwidth_count_stays_within_limit() {
    let mut used: usize = 0;
    for size in [300usize, 150, 100, 50, 1] {
        let s = bandwidth_step(used, 60, 0, size, 500);
        used = s.bytes;
        assert!(used <= 500);
    }
    assert_eq!(used, 500);
    let s = bandwidth_step(used, 86401, 0, 20, 500);
    assert!(s.reset && s.allowed && s.bytes == 20);
}

#[test]
fn assets_and_files() {
    assert_eq!(asset_path("/"), "index.html");
    assert_eq!(asset_path("//static/app.js"), "static/app.js");
    assert_eq!(asset_content_type("index.html"), "text/html");
    assert_eq!(asset_content_type("blob"), "application/octet-stream");
    assert_eq!(file_id("abc.png"), "abc");
    assert_eq!(file_id("abc"), "abc");
}

#[test]
fn configuration_defaults_and_services() {
    let c = Config::default();
    assert_eq!(c.base_url, "http://localhost");
    assert_eq!(c.listen_http, ":80");
    assert_eq!(c.cache_duration, 43200);
    assert_eq!(c.total_attachment_size_limit, 5368709120);
    assert_eq!(c.message_delay_max, 259200);
    assert_eq!(c.auth_default_access, "read-write");
    assert_eq!(c.smtp_server_domain, "ntfy.sh");
    let s = services(&c);
    assert!(!s.web_push && !s.firebase && !s.web_push_shares_auth_db);
    assert_eq!(cache_database_url(""), "sqlite::memory:");
    assert_eq!(cache_database_url(":memory:"), "sqlite::memory:");
    assert_eq!(cache_database_url("cache.db"), "sqlite://cache.db?mode=rwc");
    assert_eq!(file_database_url("auth.db"), "sqlite://auth.db?mode=rwc");
}

#[test]
fn matrix_push_keys() {
    let req = MatrixRequest {
        notification: Some(MatrixNotification {
            devices: Some(vec![
                MatrixDevice { pushkey: "http://127.0.0.1:12345/upABC".to_string() },
                MatrixDevice { pushkey: "http://127.0.0.1:12345/upDEF".to_string() },
            ]),
        }),
    };
    assert_eq!(first_pushkey(&req).as_deref(), Some("http://127.0.0.1:12345/upABC"));
    assert!(first_pushkey(&MatrixRequest { notification: None }).is_none());
    assert!(first_pushkey(&MatrixRequest { notification: Some(MatrixNotification { devices: Some(vec![]) }) }).is_none());
    assert!(first_pushkey(&MatrixRequest { notification: Some(MatrixNotification { devices: None }) }).is_none());
    assert_eq!(rejection("k".to_string()).rejected, vec!["k".to_string()]);
}

#[test]
fn email_addresses_are_checked() {
    let mut c = Config::default();
    c.smtp_sender_addr = "smtp.example.org:587".to_string();
    c.smtp_sender_from = "not an address".to_string();
    let m = open_message("i".to_string(), 1, "alerts".to_string());
    assert!(matches!(plan_email(&c, "a@b.c", &m), Err(MailError::InvalidFrom)));
    c.smtp_sender_from = "ntfy <ntfy@example.org>".to_string();
    assert!(matches!(plan_email(&c, "nobody", &m), Err(MailError::InvalidTo)));
    assert!(matches!(plan_email(&c, "a@b.c", &m), Ok(Some(_))));
}
