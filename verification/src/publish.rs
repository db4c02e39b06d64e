//! The decisions of a publish request: which headers, query parameters and
//! JSON fields set what, who may publish, when a message is scheduled, how
//! much storage an attachment may take, and the message that results.

use vstd::prelude::*;
use crate::actions::{Action, ActionView};
use crate::auth::{User, UserView, Role, Tier};
use crate::config::Config;
use crate::message::{Message, MessageView, Attachment, AttachmentView, actions_view, event_message};
use crate::schedule::{future_time_at, future_time_of};
use crate::text::{lit, 
    chars_of, string_of, str_eq, push_str, parse_i32, parse_i32_chars, split_trimmed,
    split_trim_strings,
};
use crate::outside::utf8_string;
use vstd::utf8::{valid_utf8, decode_utf8};

verus! {

// ---------------------------------------------------------------------------
// Refusals
// ---------------------------------------------------------------------------

/// Why a publish request is refused.
#[derive(Debug, Clone, Copy, PartialEq, Eq, Structural)]
pub enum PublishError {
    RateLimited,
    BodyUnreadable,
    MissingTopic,
    Unauthorized,
    Forbidden,
    AccessCheckFailed,
    DelayTooShort,
    DelayTooLong,
    InvalidDelay,
    GlobalStorageFull,
    UserStorageFull,
    BandwidthExceeded,
    AttachmentWriteFailed,
    ProcessingFailed,
}

pub open spec fn status_of(e: PublishError) -> u16 {
    match e {
        PublishError::RateLimited => 429,
        PublishError::BodyUnreadable => 400,
        PublishError::MissingTopic => 400,
        PublishError::Unauthorized => 401,
        PublishError::Forbidden => 403,
        PublishError::AccessCheckFailed => 500,
        PublishError::DelayTooShort => 400,
        PublishError::DelayTooLong => 400,
        PublishError::InvalidDelay => 400,
        PublishError::GlobalStorageFull => 507,
        PublishError::UserStorageFull => 429,
        PublishError::BandwidthExceeded => 429,
        PublishError::AttachmentWriteFailed => 500,
        PublishError::ProcessingFailed => 500,
    }
}

pub open spec fn text_of(e: PublishError) -> Seq<char> {
    match e {
        PublishError::RateLimited => "Limit reached"@,
        PublishError::BodyUnreadable => "Failed to read body"@,
        PublishError::MissingTopic => "Missing topic"@,
        PublishError::Unauthorized => "Unauthorized"@,
        PublishError::Forbidden => "Forbidden"@,
        PublishError::AccessCheckFailed => Seq::empty(),
        PublishError::DelayTooShort => "Delay too short"@,
        PublishError::DelayTooLong => "Delay too long"@,
        PublishError::InvalidDelay => "Invalid delay format"@,
        PublishError::GlobalStorageFull => "Global storage limit reached"@,
        PublishError::UserStorageFull => "User storage limit reached"@,
        PublishError::BandwidthExceeded => "Daily bandwidth limit reached"@,
        PublishError::AttachmentWriteFailed => "Failed to write attachment"@,
        PublishError::ProcessingFailed => "Failed to process message"@,
    }
}

impl PublishError {
    /// The HTTP status of the refusal.
    pub fn status(&self) -> (r: u16)
        ensures
            r == status_of(*self),
    {
        match self {
            PublishError::RateLimited => 429,
            PublishError::BodyUnreadable => 400,
            PublishError::MissingTopic => 400,
            PublishError::Unauthorized => 401,
            PublishError::Forbidden => 403,
            PublishError::AccessCheckFailed => 500,
            PublishError::DelayTooShort => 400,
            PublishError::DelayTooLong => 400,
            PublishError::InvalidDelay => 400,
            PublishError::GlobalStorageFull => 507,
            PublishError::UserStorageFull => 429,
            PublishError::BandwidthExceeded => 429,
            PublishError::AttachmentWriteFailed => 500,
            PublishError::ProcessingFailed => 500,
        }
    }

    /// The body of the refusal.
    pub fn text(&self) -> (r: String)
        ensures
            r@ == text_of(*self),
    {
        match self {
            PublishError::RateLimited => lit("Limit reached"),
            PublishError::BodyUnreadable => lit("Failed to read body"),
            PublishError::MissingTopic => lit("Missing topic"),
            PublishError::Unauthorized => lit("Unauthorized"),
            PublishError::Forbidden => lit("Forbidden"),
            PublishError::AccessCheckFailed => String::new(),
            PublishError::DelayTooShort => lit("Delay too short"),
            PublishError::DelayTooLong => lit("Delay too long"),
            PublishError::InvalidDelay => lit("Invalid delay format"),
            PublishError::GlobalStorageFull => lit("Global storage limit reached"),
            PublishError::UserStorageFull => lit("User storage limit reached"),
            PublishError::BandwidthExceeded => lit("Daily bandwidth limit reached"),
            PublishError::AttachmentWriteFailed => lit("Failed to write attachment"),
            PublishError::ProcessingFailed => lit("Failed to process message"),
        }
    }
}

// ---------------------------------------------------------------------------
// Headers and query parameters
// ---------------------------------------------------------------------------

/// The value of the first entry named `name` (header names in lower case).
pub open spec fn lookup(es: Seq<(Seq<char>, Seq<char>)>, name: Seq<char>) -> Option<Seq<char>>
    decreases es.len(),
{
    if es.len() == 0 {
        None
    } else if es[0].0 == name {
        Some(es[0].1)
    } else {
        lookup(es.drop_first(), name)
    }
}

/// The value of the first entry named `name`.
pub fn get_value(es: &Vec<(String, String)>, name: &str) -> (r: Option<String>)
    ensures
        r.deep_view() == lookup(es.deep_view(), name@),
{
    let mut i: usize = 0;
    assert(es.deep_view().skip(0) == es.deep_view());
    while i < es.len()
        invariant
            i <= es.len(),
            lookup(es.deep_view(), name@) == lookup(es.deep_view().skip(i as int), name@),
        decreases es.len() - i,
    {
        let ghost rest = es.deep_view().skip(i as int);
        assert(rest[0] == es.deep_view()[i as int]);
        if str_eq(es[i].0.as_str(), name) {
            return Some(es[i].1.clone());
        }
        assert(rest.drop_first() == es.deep_view().skip(i + 1));
        i = i + 1;
    }
    None
}

pub open spec fn or_else<T>(a: Option<T>, b: Option<T>) -> Option<T> {
    if a is Some {
        a
    } else {
        b
    }
}

fn or_else_string(a: Option<String>, b: Option<String>) -> (r: Option<String>)
    ensures
        r.deep_view() == or_else(a.deep_view(), b.deep_view()),
{
    if a.is_some() {
        a
    } else {
        b
    }
}

/// What a publish request sets.
pub struct PublishFields {
    pub topic: Option<String>,
    pub message: Option<String>,
    pub title: Option<String>,
    pub priority: Option<i32>,
    pub tags: Option<Vec<String>>,
    pub click: Option<String>,
    pub icon: Option<String>,
    pub actions: Option<Vec<Action>>,
    pub attachment_url: Option<String>,
    pub filename: Option<String>,
    pub email: Option<String>,
    pub delay: Option<String>,
}

pub struct FieldsView {
    pub topic: Option<Seq<char>>,
    pub message: Option<Seq<char>>,
    pub title: Option<Seq<char>>,
    pub priority: Option<i32>,
    pub tags: Option<Seq<Seq<char>>>,
    pub click: Option<Seq<char>>,
    pub icon: Option<Seq<char>>,
    pub actions: Option<Seq<ActionView>>,
    pub attachment_url: Option<Seq<char>>,
    pub filename: Option<Seq<char>>,
    pub email: Option<Seq<char>>,
    pub delay: Option<Seq<char>>,
}

impl View for PublishFields {
    type V = FieldsView;

    open spec fn view(&self) -> FieldsView {
        FieldsView {
            topic: self.topic.deep_view(),
            message: self.message.deep_view(),
            title: self.title.deep_view(),
            priority: self.priority,
            tags: self.tags.deep_view(),
            click: self.click.deep_view(),
            icon: self.icon.deep_view(),
            actions: actions_view(self.actions),
            attachment_url: self.attachment_url.deep_view(),
            filename: self.filename.deep_view(),
            email: self.email.deep_view(),
            delay: self.delay.deep_view(),
        }
    }
}

/// Whether character `c` is the lower-case ASCII `n`, in either case.
pub open spec fn same_letter(c: char, n: char) -> bool {
    c == n || ('a' <= n && n <= 'z' && (c as u32) + 32 == (n as u32))
}

/// Whether `s` spells the lower-case ASCII name `n`, ignoring ASCII case.
pub open spec fn names(s: Seq<char>, n: Seq<char>) -> bool {
    s.len() == n.len() && forall|i: int| 0 <= i < s.len() ==> #[trigger] same_letter(s[i], n[i])
}

/// A priority as a header states it: by name (`min`, `low`, `default`,
/// `high`, `max` or `urgent`, in any case) or by number.
pub open spec fn priority_of(s: Seq<char>) -> Option<i32> {
    if names(s, "min"@) {
        Some(1)
    } else if names(s, "low"@) {
        Some(2)
    } else if names(s, "default"@) {
        Some(3)
    } else if names(s, "high"@) {
        Some(4)
    } else if names(s, "max"@) || names(s, "urgent"@) {
        Some(5)
    } else {
        parse_i32(s)
    }
}

pub open spec fn parsed_priority(v: Option<Seq<char>>) -> Option<i32> {
    match v {
        Some(s) => priority_of(s),
        None => None,
    }
}

fn names_exec(s: &[char], n: &str) -> (r: bool)
    requires
        forall|i: int| 0 <= i < n@.len() ==> 'a' <= #[trigger] n@[i] <= 'z',
    ensures
        r == names(s@, n@),
{
    let nv = chars_of(n);
    if s.len() != nv.len() {
        return false;
    }
    let mut i: usize = 0;
    while i < s.len()
        invariant
            s@.len() == nv@.len(),
            nv@ == n@,
            i <= s.len(),
            forall|k: int| 0 <= k < n@.len() ==> 'a' <= #[trigger] n@[k] <= 'z',
            forall|k: int| 0 <= k < i ==> #[trigger] same_letter(s@[k], nv@[k]),
        decreases s.len() - i,
    {
        let c = s[i];
        let m = nv[i];
        assert(n@[i as int] == m);
        if !(c == m || (c as u32) == (m as u32) - 32) {
            assert(!same_letter(s@[i as int], nv@[i as int]));
            return false;
        }
        i = i + 1;
    }
    true
}

/// Reads a priority (see `priority_of`).
pub fn parse_priority(s: &str) -> (r: Option<i32>)
    ensures
        r == priority_of(s@),
{
    let v = chars_of(s);
    proof {
        reveal_strlit("min");
        reveal_strlit("low");
        reveal_strlit("default");
        reveal_strlit("high");
        reveal_strlit("max");
        reveal_strlit("urgent");
    }
    if names_exec(&v, "min") {
        Some(1)
    } else if names_exec(&v, "low") {
        Some(2)
    } else if names_exec(&v, "default") {
        Some(3)
    } else if names_exec(&v, "high") {
        Some(4)
    } else if names_exec(&v, "max") || names_exec(&v, "urgent") {
        Some(5)
    } else {
        parse_i32_chars(&v)
    }
}

pub open spec fn parsed_tags(v: Option<Seq<char>>) -> Option<Seq<Seq<char>>> {
    match v {
        Some(s) => Some(split_trimmed(s, ',')),
        None => None,
    }
}

/// What the headers and query parameters of a publish request set. `h` are
/// the headers (lower-case names), `p` the query parameters, `topic` the
/// topic in the path and `actions` the actions that the `Actions` (or
/// `X-Actions`) header holds.
pub open spec fn fields_of(topic: Option<Seq<char>>, h: Seq<(Seq<char>, Seq<char>)>, p: Seq<(Seq<char>, Seq<char>)>, actions: Option<Seq<ActionView>>) -> FieldsView {
    FieldsView {
        topic,
        message: None,
        title: or_else(lookup(h, "title"@), lookup(h, "x-title"@)),
        priority: or_else(
            parsed_priority(lookup(h, "priority"@)),
            parsed_priority(lookup(h, "x-priority"@)),
        ),
        tags: or_else(parsed_tags(lookup(h, "tags"@)), parsed_tags(lookup(h, "x-tags"@))),
        click: or_else(lookup(h, "click"@), lookup(h, "x-click"@)),
        icon: or_else(lookup(h, "icon"@), lookup(h, "x-icon"@)),
        actions,
        attachment_url: or_else(lookup(h, "attach"@), lookup(h, "x-attach"@)),
        filename: or_else(
            or_else(
                or_else(lookup(h, "filename"@), lookup(h, "x-filename"@)),
                lookup(h, "file"@),
            ),
            lookup(h, "x-file"@),
        ),
        email: or_else(
            or_else(lookup(h, "email"@), lookup(h, "x-email"@)),
            lookup(p, "email"@),
        ),
        delay: or_else(
            or_else(
                or_else(
                    or_else(
                        or_else(
                            or_else(
                                or_else(
                                    or_else(lookup(h, "delay"@), lookup(h, "x-delay"@)),
                                    lookup(h, "at"@),
                                ),
                                lookup(h, "x-at"@),
                            ),
                            lookup(h, "in"@),
                        ),
                        lookup(h, "x-in"@),
                    ),
                    lookup(p, "delay"@),
                ),
                lookup(p, "at"@),
            ),
            lookup(p, "in"@),
        ),
    }
}

fn header_priority(h: &Vec<(String, String)>, name: &str) -> (r: Option<i32>)
    ensures
        r == parsed_priority(lookup(h.deep_view(), name@)),
{
    match get_value(h, name) {
        Some(v) => parse_priority(v.as_str()),
        None => None,
    }
}

fn header_tags(h: &Vec<(String, String)>, name: &str) -> (r: Option<Vec<String>>)
    ensures
        r.deep_view() == parsed_tags(lookup(h.deep_view(), name@)),
{
    match get_value(h, name) {
        Some(v) => {
            let t = split_trim_strings(&chars_of(v.as_str()), ',');
            assert(t@.map_values(|x: String| x@) =~= t.deep_view());
            Some(t)
        },
        None => None,
    }
}

fn first_value(h: &Vec<(String, String)>, a: &str, b: &str) -> (r: Option<String>)
    ensures
        r.deep_view() == or_else(lookup(h.deep_view(), a@), lookup(h.deep_view(), b@)),
{
    or_else_string(get_value(h, a), get_value(h, b))
}

/// Reads what the headers and query parameters of a publish request set.
pub fn fields_from_request(topic: Option<String>, headers: &Vec<(String, String)>, params: &Vec<(String, String)>, actions: Option<Vec<Action>>) -> (r: PublishFields)
    ensures
        r@ == fields_of(topic.deep_view(), headers.deep_view(), params.deep_view(), actions_view(actions)),
{
    let priority = match header_priority(headers, "priority") {
        Some(p) => Some(p),
        None => header_priority(headers, "x-priority"),
    };
    let tags = match header_tags(headers, "tags") {
        Some(t) => Some(t),
        None => header_tags(headers, "x-tags"),
    };
    let filename = or_else_string(
        or_else_string(first_value(headers, "filename", "x-filename"), get_value(headers, "file")),
        get_value(headers, "x-file"),
    );
    let email = or_else_string(first_value(headers, "email", "x-email"), get_value(params, "email"));
    let d = first_value(headers, "delay", "x-delay");
    let d = or_else_string(d, get_value(headers, "at"));
    let d = or_else_string(d, get_value(headers, "x-at"));
    let d = or_else_string(d, get_value(headers, "in"));
    let d = or_else_string(d, get_value(headers, "x-in"));
    let d = or_else_string(d, get_value(params, "delay"));
    let d = or_else_string(d, get_value(params, "at"));
    let d = or_else_string(d, get_value(params, "in"));
    PublishFields {
        topic,
        message: None,
        title: first_value(headers, "title", "x-title"),
        priority,
        tags,
        click: first_value(headers, "click", "x-click"),
        icon: first_value(headers, "icon", "x-icon"),
        actions,
        attachment_url: first_value(headers, "attach", "x-attach"),
        filename,
        email,
        delay: d,
    }
}

// ---------------------------------------------------------------------------
// The JSON form of a publish request
// ---------------------------------------------------------------------------

/// A publish request sent as a JSON object.
pub struct PublishRequest {
    pub topic: Option<String>,
    pub message: Option<String>,
    pub title: Option<String>,
    pub priority: Option<i32>,
    pub tags: Option<Vec<String>>,
    pub click: Option<String>,
    pub icon: Option<String>,
    pub actions: Option<Vec<Action>>,
    pub attachment: Option<String>,
    pub attach: Option<String>,
    pub file: Option<String>,
    pub filename: Option<String>,
    pub email: Option<String>,
    pub delay: Option<String>,
    pub at: Option<String>,
    pub in_str: Option<String>,
}

/// The fields after a JSON request: each field it sets overrides; of the
/// attachment URLs `file` wins over `attach` over `attachment`, of the delays
/// `in` over `at` over `delay`.
pub open spec fn with_request(f: FieldsView, r: PublishRequest) -> FieldsView {
    FieldsView {
        topic: or_else(r.topic.deep_view(), f.topic),
        message: or_else(r.message.deep_view(), f.message),
        title: or_else(r.title.deep_view(), f.title),
        priority: or_else(r.priority, f.priority),
        tags: or_else(r.tags.deep_view(), f.tags),
        click: or_else(r.click.deep_view(), f.click),
        icon: or_else(r.icon.deep_view(), f.icon),
        actions: or_else(actions_view(r.actions), f.actions),
        attachment_url: or_else(
            r.file.deep_view(),
            or_else(r.attach.deep_view(), or_else(r.attachment.deep_view(), f.attachment_url)),
        ),
        filename: or_else(r.filename.deep_view(), f.filename),
        email: or_else(r.email.deep_view(), f.email),
        delay: or_else(
            r.in_str.deep_view(),
            or_else(r.at.deep_view(), or_else(r.delay.deep_view(), f.delay)),
        ),
    }
}

/// A field that a JSON publish request sets wins over what the headers set,
/// and a field it leaves out keeps the headers' value.
pub proof fn lemma_json_fields_win(f: FieldsView, r: PublishRequest)
    ensures
        r.priority matches Some(p) ==> with_request(f, r).priority == Some(p),
        r.priority is None ==> with_request(f, r).priority == f.priority,
        r.topic matches Some(t) ==> with_request(f, r).topic == Some(t@),
        r.topic is None ==> with_request(f, r).topic == f.topic,
        r.message matches Some(t) ==> with_request(f, r).message == Some(t@),
        r.message is None ==> with_request(f, r).message == f.message,
        r.title matches Some(t) ==> with_request(f, r).title == Some(t@),
        r.title is None ==> with_request(f, r).title == f.title,
        r.click matches Some(t) ==> with_request(f, r).click == Some(t@),
        r.click is None ==> with_request(f, r).click == f.click,
        r.icon matches Some(t) ==> with_request(f, r).icon == Some(t@),
        r.icon is None ==> with_request(f, r).icon == f.icon,
        r.filename matches Some(t) ==> with_request(f, r).filename == Some(t@),
        r.email matches Some(t) ==> with_request(f, r).email == Some(t@),
        r.tags matches Some(t) ==> with_request(f, r).tags == Some(t.deep_view()),
        r.file matches Some(t) ==> with_request(f, r).attachment_url == Some(t@),
        r.in_str matches Some(t) ==> with_request(f, r).delay == Some(t@),
{
}

/// Applies a JSON publish request to what the headers set.
pub fn apply_request(f: PublishFields, r: PublishRequest) -> (out: PublishFields)
    ensures
        out@ == with_request(f@, r),
{
    let ghost fv = f@;
    let PublishFields {
        topic,
        message,
        title,
        priority,
        tags,
        click,
        icon,
        actions,
        attachment_url,
        filename,
        email,
        delay,
    } = f;
    let topic = if r.topic.is_some() { r.topic } else { topic };
    let message = if r.message.is_some() { r.message } else { message };
    let title = if r.title.is_some() { r.title } else { title };
    let priority = if r.priority.is_some() { r.priority } else { priority };
    let tags = if r.tags.is_some() { r.tags } else { tags };
    let click = if r.click.is_some() { r.click } else { click };
    let icon = if r.icon.is_some() { r.icon } else { icon };
    let actions = if r.actions.is_some() { r.actions } else { actions };
    let mut attachment_url = attachment_url;
    if r.attachment.is_some() {
        attachment_url = r.attachment;
    }
    if r.attach.is_some() {
        attachment_url = r.attach;
    }
    if r.file.is_some() {
        attachment_url = r.file;
    }
    let filename = if r.filename.is_some() { r.filename } else { filename };
    let email = if r.email.is_some() { r.email } else { email };
    let mut delay = delay;
    if r.delay.is_some() {
        delay = r.delay;
    }
    if r.at.is_some() {
        delay = r.at;
    }
    if r.in_str.is_some() {
        delay = r.in_str;
    }
    PublishFields {
        topic,
        message,
        title,
        priority,
        tags,
        click,
        icon,
        actions,
        attachment_url,
        filename,
        email,
        delay,
    }
}

// ---------------------------------------------------------------------------
// Who may publish, and when the message goes out
// ---------------------------------------------------------------------------

/// The refusal for a publish request, given the outcome of the access check
/// (`None` when the check itself failed).
pub open spec fn access_refusal(granted: Option<bool>, role: Role) -> Option<PublishError> {
    match granted {
        Some(true) => None,
        Some(false) => if role == Role::Anonymous {
            Some(PublishError::Unauthorized)
        } else {
            Some(PublishError::Forbidden)
        },
        None => Some(PublishError::AccessCheckFailed),
    }
}

pub fn check_publish_access(granted: Option<bool>, role: Role) -> (r: Result<(), PublishError>)
    ensures
        match access_refusal(granted, role) {
            Some(e) => r == Err::<(), PublishError>(e),
            None => r is Ok,
        },
{
    match granted {
        Some(true) => Ok(()),
        Some(false) => {
            if role == Role::Anonymous {
                Err(PublishError::Unauthorized)
            } else {
                Err(PublishError::Forbidden)
            }
        },
        None => Err(PublishError::AccessCheckFailed),
    }
}

/// When a message with a parsed delay is published: `Ok(Some(t))` schedules
/// it for `t`, `Ok(None)` publishes it now (a time not in the future).
pub open spec fn schedule_of(parsed: Result<i64, Seq<char>>, now: i64, min: u64, max: u64) -> Result<Option<i64>, PublishError> {
    match parsed {
        Err(_) => Err(PublishError::InvalidDelay),
        Ok(t) => if t > now {
            if t - now < (min as i64) {
                Err(PublishError::DelayTooShort)
            } else if t - now > (max as i64) {
                Err(PublishError::DelayTooLong)
            } else {
                Ok(Some(t))
            }
        } else {
            Ok(None)
        },
    }
}

/// Decides the schedule of a message whose delay text was read as `parsed`.
pub fn schedule_decision(parsed: Result<i64, String>, now: i64, min: u64, max: u64) -> (r: Result<Option<i64>, PublishError>)
    ensures
        r == schedule_of(
            match parsed {
                Ok(t) => Ok(t),
                Err(e) => Err(e@),
            },
            now,
            min,
            max,
        ),
{
    match parsed {
        Err(_) => Err(PublishError::InvalidDelay),
        Ok(t) => {
            if t > now {
                let diff: i128 = (t as i128) - (now as i128);
                if diff < ((min as i64) as i128) {
                    Err(PublishError::DelayTooShort)
                } else if diff > ((max as i64) as i128) {
                    Err(PublishError::DelayTooLong)
                } else {
                    Ok(Some(t))
                }
            } else {
                Ok(None)
            }
        },
    }
}

/// The schedule decision for a request with `delay` handled when the clock
/// reads `now`: none without a delay; otherwise the time the delay names
/// (a timestamp, or `now` plus a relative time, see `future_time_of`)
/// decided as `schedule_of` says.
pub open spec fn schedule_for(delay: Option<Seq<char>>, now: i64, min: u64, max: u64) -> Result<Option<i64>, PublishError> {
    match delay {
        None => Ok(None),
        Some(d) => schedule_of(future_time_of(d, now), now, min, max),
    }
}

/// Every schedule decision is within the configured delay bounds.
pub proof fn lemma_schedule_within_bounds(delay: Option<Seq<char>>, now: i64, min: u64, max: u64)
    ensures
        schedule_for(delay, now, min, max) matches Ok(Some(t)) ==> t > now && t - now >= (min as i64)
            && t - now <= (max as i64),
{
}

/// Reads a delay (if the request has one) and decides the schedule; `now`
/// is the clock's reading when the request is handled (see `schedule_for`).
pub fn schedule_publish(delay: Option<&str>, now: i64, min: u64, max: u64) -> (r: Result<Option<i64>, PublishError>)
    ensures
        r == schedule_for(
            match delay {
                Some(d) => Some(d@),
                None => None,
            },
            now,
            min,
            max,
        ),
{
    match delay {
        None => Ok(None),
        Some(d) => schedule_decision(future_time_at(d, now), now, min, max),
    }
}

// ---------------------------------------------------------------------------
// Attachments
// ---------------------------------------------------------------------------

/// The attachment storage limit and expiry (seconds) that apply to a user:
/// the visitor settings for anonymous users, the tier's limits otherwise.
pub open spec fn attachment_limits_of(u: UserView, visitor_total: usize, visitor_expiry: u64) -> (int, int) {
    if u.role == Role::Anonymous {
        ((visitor_total as i64) as int, visitor_expiry as int)
    } else {
        (u.tier.limits().5, ((u.tier.limits().6 as i64) as u64) as int)
    }
}

pub fn attachment_limits(user: &User, config: &Config) -> (r: (i64, u64))
    ensures
        (r.0 as int, r.1 as int) == attachment_limits_of(
            user@,
            config.visitor_attachment_total_size_limit,
            config.attachment_expiry_duration,
        ),
{
    let info = user.tier.info();
    if user.role == Role::Anonymous {
        (config.visitor_attachment_total_size_limit as i64, config.attachment_expiry_duration)
    } else {
        (info.attachment_total_size_limit, info.attachment_expiry_duration as u64)
    }
}

/// When an attachment published now expires.
pub fn attachment_expiry(now: i64, expiry_secs: u64) -> (r: i64)
    ensures
        r == now.wrapping_add_unsigned(expiry_secs),
{
    now.wrapping_add_unsigned(expiry_secs)
}

/// Whether a request has an attachment (uploaded or linked), so that the
/// storage limits are checked.
pub open spec fn has_attachment(f: FieldsView) -> bool {
    f.filename is Some || f.attachment_url is Some
}

/// The storage check before an attachment is taken: the server's total, then
/// the user's.
pub open spec fn storage_refusal(global_used: u64, global_limit: u64, user_used: i64, user_limit: i64) -> Option<PublishError> {
    if global_used >= global_limit {
        Some(PublishError::GlobalStorageFull)
    } else if user_used >= user_limit {
        Some(PublishError::UserStorageFull)
    } else {
        None
    }
}

pub fn check_storage(global_used: u64, global_limit: u64, user_used: i64, user_limit: i64) -> (r: Result<(), PublishError>)
    ensures
        match storage_refusal(global_used, global_limit, user_used, user_limit) {
            Some(e) => r == Err::<(), PublishError>(e),
            None => r is Ok,
        },
{
    if global_used >= global_limit {
        return Err(PublishError::GlobalStorageFull);
    }
    if user_used >= user_limit {
        return Err(PublishError::UserStorageFull);
    }
    Ok(())
}

/// Whether the body read so far, with the next chunk, passes the message
/// size limit (so that the body becomes an attachment).
pub fn body_overflows(buffered: usize, chunk: usize, limit: usize) -> (r: bool)
    ensures
        r == (buffered + chunk > limit),
{
    (buffered as u128) + (chunk as u128) > (limit as u128)
}

/// What a request body is: the message text, or a file.
pub enum Body {
    Text(String),
    File,
}

/// A body within the size limit is the message text when it is UTF-8 (the
/// empty body included), and a file otherwise; a body past the limit is a file.
pub fn classify_body(buffer: Vec<u8>, overflowed: bool) -> (r: Body)
    ensures
        overflowed ==> r is File,
        !overflowed && valid_utf8(buffer@) ==> (r matches Body::Text(t) && t@ == decode_utf8(buffer@)),
        !overflowed && !valid_utf8(buffer@) ==> r is File,
{
    if overflowed {
        return Body::File;
    }
    match utf8_string(buffer) {
        Some(s) => Body::Text(s),
        None => Body::File,
    }
}

/// The download address of a stored attachment.
pub open spec fn file_url_of(base_url: Seq<char>, id: Seq<char>) -> Seq<char> {
    base_url + "/file/"@ + id
}

pub fn file_url(base_url: &str, id: &str) -> (r: String)
    ensures
        r@ == file_url_of(base_url@, id@),
{
    let mut v = chars_of(base_url);
    push_str(&mut v, "/file/");
    push_str(&mut v, id);
    string_of(&v)
}

/// An attachment stored on this server under `id`, `size` bytes long (as a
/// signed size).
pub open spec fn stored_attachment_of(name: Seq<char>, size: u64, expires: i64, base_url: Seq<char>, id: Seq<char>) -> AttachmentView {
    AttachmentView {
        name,
        type_: None,
        size: Some(size as i64),
        expires: Some(expires),
        url: file_url_of(base_url, id),
    }
}

pub fn stored_attachment(name: String, size: u64, expires: i64, base_url: &str, id: &str) -> (a: Attachment)
    ensures
        a@ == stored_attachment_of(name@, size, expires, base_url@, id@),
{
    Attachment { name, type_: None, size: Some(size as i64), expires: Some(expires), url: file_url(base_url, id) }
}

/// An attachment that lives elsewhere, named after the request's file name
/// (or `attachment`).
pub open spec fn linked_attachment_of(url: Seq<char>, filename: Option<Seq<char>>) -> AttachmentView {
    AttachmentView {
        name: match filename {
            Some(n) => n,
            None => "attachment"@,
        },
        type_: None,
        size: None,
        expires: None,
        url,
    }
}

pub fn linked_attachment(url: String, filename: Option<String>) -> (a: Attachment)
    ensures
        a@ == linked_attachment_of(url@, filename.deep_view()),
{
    let name = match filename {
        Some(n) => n,
        None => lit("attachment"),
    };
    Attachment { name, type_: None, size: None, expires: None, url }
}

/// The text of a message that has an attachment: its own, or a notice
/// naming the file.
pub open spec fn notice_of(message: Option<Seq<char>>, name: Seq<char>) -> Option<Seq<char>> {
    match message {
        Some(m) => Some(m),
        None => Some("You received a file: "@ + name),
    }
}

pub fn attachment_notice(message: Option<String>, name: &str) -> (r: Option<String>)
    ensures
        r.deep_view() == notice_of(message.deep_view(), name@),
{
    match message {
        Some(m) => Some(m),
        None => {
            let mut v = chars_of("You received a file: ");
            push_str(&mut v, name);
            Some(string_of(&v))
        },
    }
}

// ---------------------------------------------------------------------------
// The message
// ---------------------------------------------------------------------------

/// The message a publish request makes (before any attachment).
pub open spec fn published_message(id: Seq<char>, time: i64, topic: Seq<char>, f: FieldsView, sender: Seq<char>, user: UserView, scheduled: bool, expires: i64) -> MessageView {
    MessageView {
        id,
        sequence_id: None,
        time,
        expires: Some(expires),
        event: event_message(),
        topic,
        title: f.title,
        message: f.message,
        priority: f.priority,
        tags: f.tags,
        click: f.click,
        icon: f.icon,
        actions: f.actions,
        attachment: None,
        poll_id: None,
        content_type: Some("text/plain"@),
        encoding: None,
        sender: Some(sender),
        user: if user.role == Role::Anonymous {
            None
        } else {
            Some(user.id)
        },
        published: !scheduled,
    }
}

pub fn new_message(id: String, time: i64, topic: String, f: PublishFields, sender: String, user: &User, scheduled: bool, expires: i64) -> (m: Message)
    ensures
        m@ == published_message(id@, time, topic@, f@, sender@, user@, scheduled, expires),
{
    Message {
        id,
        sequence_id: None,
        time,
        expires: Some(expires),
        event: lit("message"),
        topic,
        title: f.title,
        message: f.message,
        priority: f.priority,
        tags: f.tags,
        click: f.click,
        icon: f.icon,
        actions: f.actions,
        attachment: None,
        poll_id: None,
        content_type: Some(lit("text/plain")),
        encoding: None,
        sender: Some(sender),
        user: if user.role == Role::Anonymous {
            None
        } else {
            Some(user.id.clone())
        },
        published: !scheduled,
    }
}

/// The id of a new message: the first twelve characters of a random UUID.
pub fn new_message_id() -> (r: String)
    ensures
        r@.len() == 12,
{
    let u = chars_of(crate::outside::new_uuid().as_str());
    string_of(&crate::text::slice_to_vec(&u, 0, 12))
}

} // verus!
