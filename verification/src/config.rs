//! Server settings and their defaults.

use vstd::prelude::*;
use crate::text::{lit, chars_of, string_of, str_eq, push_str};

verus! {

/// The server's settings. Paths are kept as text.
pub struct Config {
    pub base_url: String,
    pub listen_http: String,
    pub cache_file: String,
    /// Seconds.
    pub cache_duration: u64,
    pub auth_file: String,
    pub attachment_cache_dir: String,
    pub web_root: String,
    /// Bytes (64-bit, since the default exceeds a 32-bit `usize`).
    pub total_attachment_size_limit: u64,
    /// Seconds.
    pub attachment_expiry_duration: u64,
    pub visitor_attachment_total_size_limit: usize,
    pub visitor_attachment_daily_bandwidth_limit: usize,
    pub message_size_limit: usize,
    pub global_topic_limit: usize,
    pub visitor_subscription_limit: usize,
    pub visitor_request_limit_burst: usize,
    /// Seconds.
    pub message_delay_min: u64,
    /// Seconds.
    pub message_delay_max: u64,
    pub behind_proxy: bool,
    pub auth_default_access: String,
    pub smtp_sender_addr: String,
    pub smtp_sender_user: String,
    pub smtp_sender_pass: String,
    pub smtp_sender_from: String,
    pub smtp_server_listen: String,
    pub smtp_server_domain: String,
    pub smtp_server_addr_prefix: String,
    pub web_push_public_key: String,
    pub web_push_private_key: String,
    pub web_push_file: String,
    pub web_push_email_address: String,
    pub firebase_key_file: String,
    pub upstream_base_url: String,
    pub enable_login: bool,
}

impl Default for Config {
    fn default() -> (c: Config)
        ensures
            c.base_url@ == "http://localhost"@,
            c.listen_http@ == ":80"@,
            c.cache_file@ == "cache.db"@,
            c.cache_duration == 12 * 3600,
            c.auth_file@ == "auth.db"@,
            c.attachment_cache_dir@ == "attachments"@,
            c.web_root@ == "client"@,
            c.total_attachment_size_limit == 5 * 1024 * 1024 * 1024,
            c.attachment_expiry_duration == 3 * 3600,
            c.visitor_attachment_total_size_limit == 100 * 1024 * 1024,
            c.visitor_attachment_daily_bandwidth_limit == 500 * 1024 * 1024,
            c.message_size_limit == 4096,
            c.global_topic_limit == 15000,
            c.visitor_subscription_limit == 30,
            c.visitor_request_limit_burst == 60,
            c.message_delay_min == 10,
            c.message_delay_max == 3 * 24 * 3600,
            !c.behind_proxy,
            c.auth_default_access@ == "read-write"@,
            c.smtp_sender_addr@ == Seq::<char>::empty(),
            c.smtp_sender_user@ == Seq::<char>::empty(),
            c.smtp_sender_pass@ == Seq::<char>::empty(),
            c.smtp_sender_from@ == Seq::<char>::empty(),
            c.smtp_server_listen@ == Seq::<char>::empty(),
            c.smtp_server_domain@ == "ntfy.sh"@,
            c.smtp_server_addr_prefix@ == Seq::<char>::empty(),
            c.web_push_public_key@ == Seq::<char>::empty(),
            c.web_push_private_key@ == Seq::<char>::empty(),
            c.web_push_file@ == "webpush.db"@,
            c.web_push_email_address@ == Seq::<char>::empty(),
            c.firebase_key_file@ == Seq::<char>::empty(),
            c.upstream_base_url@ == Seq::<char>::empty(),
            !c.enable_login,
    {
        Config {
            base_url: lit("http://localhost"),
            listen_http: lit(":80"),
            cache_file: lit("cache.db"),
            cache_duration: 12 * 3600,
            auth_file: lit("auth.db"),
            attachment_cache_dir: lit("attachments"),
            web_root: lit("client"),
            total_attachment_size_limit: 5 * 1024 * 1024 * 1024,
            attachment_expiry_duration: 3 * 3600,
            visitor_attachment_total_size_limit: 100 * 1024 * 1024,
            visitor_attachment_daily_bandwidth_limit: 500 * 1024 * 1024,
            message_size_limit: 4096,
            global_topic_limit: 15000,
            visitor_subscription_limit: 30,
            visitor_request_limit_burst: 60,
            message_delay_min: 10,
            message_delay_max: 3 * 24 * 3600,
            behind_proxy: false,
            auth_default_access: lit("read-write"),
            smtp_sender_addr: String::new(),
            smtp_sender_user: String::new(),
            smtp_sender_pass: String::new(),
            smtp_sender_from: String::new(),
            smtp_server_listen: String::new(),
            smtp_server_domain: lit("ntfy.sh"),
            smtp_server_addr_prefix: String::new(),
            web_push_public_key: String::new(),
            web_push_private_key: String::new(),
            web_push_file: lit("webpush.db"),
            web_push_email_address: String::new(),
            firebase_key_file: String::new(),
            upstream_base_url: String::new(),
            enable_login: false,
        }
    }
}


/// The message cache's database: in memory when no file (or `:memory:`) is
/// set, else the file, created when missing.
pub open spec fn cache_url_of(cache_file: Seq<char>) -> Seq<char> {
    if cache_file.len() == 0 || cache_file == ":memory:"@ {
        "sqlite::memory:"@
    } else {
        "sqlite://"@ + cache_file + "?mode=rwc"@
    }
}

pub fn cache_database_url(cache_file: &str) -> (r: String)
    ensures
        r@ == cache_url_of(cache_file@),
{
    if chars_of(cache_file).len() == 0 || str_eq(cache_file, ":memory:") {
        return lit("sqlite::memory:");
    }
    file_database_url(cache_file)
}

/// A database kept in a file, created when missing.
pub open spec fn file_url_of(file: Seq<char>) -> Seq<char> {
    "sqlite://"@ + file + "?mode=rwc"@
}

pub fn file_database_url(file: &str) -> (r: String)
    ensures
        r@ == file_url_of(file@),
{
    let mut v = chars_of("sqlite://");
    push_str(&mut v, file);
    push_str(&mut v, "?mode=rwc");
    string_of(&v)
}

/// Which optional services a configuration turns on.
pub struct Services {
    /// Web push, with its own database unless it shares the user database.
    pub web_push: bool,
    pub web_push_shares_auth_db: bool,
    pub firebase: bool,
}

pub fn services(c: &Config) -> (r: Services)
    ensures
        r.web_push == (c.web_push_public_key@.len() > 0),
        r.web_push_shares_auth_db == (c.web_push_file@ == c.auth_file@),
        r.firebase == (c.firebase_key_file@.len() > 0),
{
    Services {
        web_push: chars_of(c.web_push_public_key.as_str()).len() > 0,
        web_push_shares_auth_db: str_eq(c.web_push_file.as_str(), c.auth_file.as_str()),
        firebase: chars_of(c.firebase_key_file.as_str()).len() > 0,
    }
}

} // verus!
