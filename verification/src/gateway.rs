//! Smaller decisions at the server's edges: the UnifiedPush (Matrix)
//! gateway, outgoing email, web assets and attachment downloads.

use vstd::prelude::*;
use std::sync::Arc;
use crate::auth::{User, UserView, Role};
use crate::config::Config;
use crate::message::{Message, MessageView, or_empty};
use crate::text::{lit, 
    chars_of, string_of, starts_with_str, slice_to_vec, has_prefix, push_str, push_chars,
    find_char, first_index, split_once, split_once_char, lemma_first_index,
};
use crate::outside::{parse_url, url_parts_of, mime_for_path, mime_type_of, is_mailbox, mailbox_ok};

verus! {

/// `s` without its leading `c` characters (std's `trim_start_matches`).
pub open spec fn strip_leading(s: Seq<char>, c: char) -> Seq<char>
    decreases s.len(),
{
    if s.len() > 0 && s[0] == c {
        strip_leading(s.drop_first(), c)
    } else {
        s
    }
}

pub fn strip_leading_char(s: &[char], c: char) -> (r: Vec<char>)
    ensures
        r@ == strip_leading(s@, c),
{
    let mut i: usize = 0;
    assert(s@.skip(0) == s@);
    while i < s.len() && s[i] == c
        invariant
            i <= s.len(),
            strip_leading(s@, c) == strip_leading(s@.skip(i as int), c),
        decreases s.len() - i,
    {
        assert(s@.skip(i as int).drop_first() == s@.skip(i + 1));
        i = i + 1;
    }
    assert(s@.skip(i as int) == s@.subrange(i as int, s.len() as int));
    slice_to_vec(s, i, s.len())
}

// ---------------------------------------------------------------------------
// The Matrix push gateway
// ---------------------------------------------------------------------------

/// Where a Matrix push key leads.
pub enum MatrixRoute {
    /// Not a key of this server: reported back as rejected.
    Reject,
    /// Not a URL.
    InvalidUrl,
    /// Publish to `topic`, with the key's query parameters.
    Publish { topic: String, params: Vec<(String, String)> },
}

/// The route of a push key: keys outside this server's base URL are
/// rejected; the topic is the key's path without its leading slashes.
pub open spec fn matrix_route_of(pushkey: Seq<char>, base_url: Seq<char>) -> Option<Option<(Seq<char>, Seq<(Seq<char>, Seq<char>)>)>> {
    if !has_prefix(pushkey, base_url) {
        None
    } else {
        match url_parts_of(pushkey) {
            None => Some(None),
            Some((path, q)) => Some(Some((strip_leading(path, '/'), q))),
        }
    }
}

pub fn matrix_route(pushkey: &str, base_url: &str) -> (r: MatrixRoute)
    ensures
        match matrix_route_of(pushkey@, base_url@) {
            None => r is Reject,
            Some(None) => r is InvalidUrl,
            Some(Some((t, q))) => r matches MatrixRoute::Publish { topic, params } && topic@ == t
                && params.deep_view() == q,
        },
{
    let key = chars_of(pushkey);
    let base = chars_of(base_url);
    if !crate::text::starts_with(&key, &base) {
        return MatrixRoute::Reject;
    }
    match parse_url(pushkey) {
        None => MatrixRoute::InvalidUrl,
        Some((path, params)) => {
            let t = strip_leading_char(&chars_of(path.as_str()), '/');
            MatrixRoute::Publish { topic: string_of(&t), params }
        },
    }
}

/// A device of a Matrix push notification.
pub struct MatrixDevice {
    pub pushkey: String,
}

/// The notification of a Matrix push request.
pub struct MatrixNotification {
    pub devices: Option<Vec<MatrixDevice>>,
}

/// A Matrix push request.
pub struct MatrixRequest {
    pub notification: Option<MatrixNotification>,
}

/// The answer to a Matrix push request: the push keys it rejects.
pub struct MatrixResponse {
    pub rejected: Vec<String>,
}

/// The push key a request is for: its first device's.
pub open spec fn pushkey_of(req: MatrixRequest) -> Option<Seq<char>> {
    match req.notification {
        Some(n) => match n.devices {
            Some(d) => if d@.len() > 0 {
                Some(d@[0].pushkey@)
            } else {
                None
            },
            None => None,
        },
        None => None,
    }
}

/// The push key of a request, if it names one.
pub fn first_pushkey(req: &MatrixRequest) -> (r: Option<String>)
    ensures
        r.deep_view() == pushkey_of(*req),
{
    match &req.notification {
        Some(n) => match &n.devices {
            Some(d) => if d.len() > 0 {
                Some(d[0].pushkey.clone())
            } else {
                None
            },
            None => None,
        },
        None => None,
    }
}

/// The answer rejecting `pushkey`.
pub fn rejection(pushkey: String) -> (r: MatrixResponse)
    ensures
        r.rejected@.len() == 1,
        r.rejected@[0]@ == pushkey@,
{
    let mut rejected: Vec<String> = Vec::new();
    rejected.push(pushkey);
    MatrixResponse { rejected }
}

/// A topic unused for more than twelve hours no longer takes Matrix pushes.
pub fn matrix_topic_inactive(idle_secs: u64) -> (r: bool)
    ensures
        r == (idle_secs > 12 * 3600),
{
    idle_secs > 12 * 3600
}

/// The user id a web push subscription is stored under: none for anonymous users.
pub fn subscriber_id(user: &User) -> (r: Option<String>)
    ensures
        r.deep_view() == (if user@.role == Role::Anonymous {
            None
        } else {
            Some(user@.id)
        }),
{
    if user.role == Role::Anonymous {
        None
    } else {
        Some(user.id.clone())
    }
}

// ---------------------------------------------------------------------------
// Outgoing email
// ---------------------------------------------------------------------------

/// An email to send for a message.
pub struct EmailPlan {
    pub host: String,
    pub from: String,
    pub to: String,
    pub subject: String,
    pub body: String,
    /// User name and password for the SMTP server, when one is configured.
    pub credentials: Option<(String, String)>,
}

/// The relay host: the sender address up to its first `:`.
pub open spec fn relay_host(addr: Seq<char>) -> Seq<char> {
    match split_once(addr, ':') {
        Some((h, _)) => h,
        None => addr,
    }
}

pub open spec fn email_subject(m: MessageView) -> Seq<char> {
    match m.title {
        Some(t) => t,
        None => "ntfy notification"@,
    }
}

pub open spec fn email_body(m: MessageView, base_url: Seq<char>) -> Seq<char> {
    or_empty(m.message) + "\n\n--\nSent via "@ + base_url + "/"@ + m.topic
}

/// Why no email can be made for a message.
#[derive(Debug, Clone, Copy, PartialEq, Eq, Structural)]
pub enum MailError {
    /// The configured sender address is not a mailbox.
    InvalidFrom,
    /// The recipient address is not a mailbox.
    InvalidTo,
}

/// Whether `r` is the email for message `m` to `to` under `config`: none
/// when no SMTP sender is set; an error when the sender address, then the
/// recipient, is not a mailbox; else through the sender's host, from the
/// configured address, with the message's title and text and a link to its
/// topic, logged in when an SMTP user is set.
pub open spec fn email_plan_fits(config: Config, to: Seq<char>, m: MessageView, r: Result<Option<EmailPlan>, MailError>) -> bool {
    if config.smtp_sender_addr@.len() == 0 {
        r == Ok::<Option<EmailPlan>, MailError>(None)
    } else if !mailbox_ok(config.smtp_sender_from@) {
        r == Err::<Option<EmailPlan>, MailError>(MailError::InvalidFrom)
    } else if !mailbox_ok(to) {
        r == Err::<Option<EmailPlan>, MailError>(MailError::InvalidTo)
    } else {
        r matches Ok(Some(p)) && {
            &&& p.host@ == relay_host(config.smtp_sender_addr@)
            &&& p.from@ == config.smtp_sender_from@
            &&& p.to@ == to
            &&& p.subject@ == email_subject(m)
            &&& p.body@ == email_body(m, config.base_url@)
            &&& (config.smtp_sender_user@.len() == 0 ==> p.credentials is None)
            &&& (config.smtp_sender_user@.len() > 0 ==> (p.credentials matches Some((u, w))
                && u@ == config.smtp_sender_user@ && w@ == config.smtp_sender_pass@))
        }
    }
}

/// The email for message `m` to `to` (see `email_plan_fits`).
pub fn plan_email(config: &Config, to: &str, m: &Message) -> (r: Result<Option<EmailPlan>, MailError>)
    ensures
        email_plan_fits(*config, to@, m@, r),
{
    let addr = chars_of(config.smtp_sender_addr.as_str());
    if addr.len() == 0 {
        return Ok(None);
    }
    if !is_mailbox(config.smtp_sender_from.as_str()) {
        return Err(MailError::InvalidFrom);
    }
    if !is_mailbox(to) {
        return Err(MailError::InvalidTo);
    }
    Ok(Some(plan_of(config, to, m)))
}

fn plan_of(config: &Config, to: &str, m: &Message) -> (p: EmailPlan)
    requires
        config.smtp_sender_addr@.len() > 0,
    ensures
        p.host@ == relay_host(config.smtp_sender_addr@),
        p.from@ == config.smtp_sender_from@,
        p.to@ == to@,
        p.subject@ == email_subject(m@),
        p.body@ == email_body(m@, config.base_url@),
        config.smtp_sender_user@.len() == 0 ==> p.credentials is None,
        config.smtp_sender_user@.len() > 0 ==> (p.credentials matches Some((u, w)) && u@
            == config.smtp_sender_user@ && w@ == config.smtp_sender_pass@),
{
    let addr = chars_of(config.smtp_sender_addr.as_str());
    let host = match split_once_char(&addr, ':') {
        Some((h, _)) => string_of(&h),
        None => string_of(&addr),
    };
    let subject = match &m.title {
        Some(t) => t.clone(),
        None => lit("ntfy notification"),
    };
    let mut body = match &m.message {
        Some(t) => chars_of(t.as_str()),
        None => Vec::new(),
    };
    push_str(&mut body, "\n\n--\nSent via ");
    push_str(&mut body, config.base_url.as_str());
    push_str(&mut body, "/");
    push_str(&mut body, m.topic.as_str());
    let credentials = if chars_of(config.smtp_sender_user.as_str()).len() > 0 {
        Some((config.smtp_sender_user.clone(), config.smtp_sender_pass.clone()))
    } else {
        None
    };
    EmailPlan {
        host,
        from: config.smtp_sender_from.clone(),
        to: lit(to),
        subject,
        body: string_of(&body),
        credentials,
    }
}

/// Sends messages as email with the server's SMTP settings.
pub struct Mailer {
    pub config: Arc<Config>,
}

impl Mailer {
    pub fn new(config: Arc<Config>) -> (r: Mailer)
        ensures
            r.config == config,
    {
        Mailer { config }
    }

    /// The email to send for message `m` to `to` (see `email_plan_fits`).
    pub fn plan(&self, to: &str, m: &Message) -> (r: Result<Option<EmailPlan>, MailError>)
        ensures
            email_plan_fits(*self.config, to@, m@, r),
    {
        plan_email(&self.config, to, m)
    }
}

// ---------------------------------------------------------------------------
// Web assets and downloads
// ---------------------------------------------------------------------------

/// The asset a request path asks for: the path without leading slashes, or
/// the index page for the root.
pub open spec fn asset_of(path: Seq<char>) -> Seq<char> {
    let p = strip_leading(path, '/');
    if p.len() == 0 {
        "index.html"@
    } else {
        p
    }
}

pub fn asset_path(uri_path: &str) -> (r: String)
    ensures
        r@ == asset_of(uri_path@),
{
    let p = strip_leading_char(&chars_of(uri_path), '/');
    if p.len() == 0 {
        lit("index.html")
    } else {
        string_of(&p)
    }
}

/// The media type an asset is served with.
pub fn asset_content_type(path: &str) -> (r: String)
    ensures
        r@ == mime_type_of(path@),
{
    mime_for_path(path)
}

/// The stored file a download path names: the part before its first dot.
pub open spec fn file_id_of(s: Seq<char>) -> Seq<char> {
    match first_index(s, '.') {
        Some(i) => s.take(i),
        None => s,
    }
}

pub fn file_id(path: &str) -> (r: String)
    ensures
        r@ == file_id_of(path@),
{
    let v = chars_of(path);
    match find_char(&v, '.') {
        Some(i) => {
            proof {
                lemma_first_index(v@, '.');
            }
            string_of(&slice_to_vec(&v, 0, i))
        },
        None => string_of(&v),
    }
}

} // verus!
