//! A publish request from its parsed parts to the message it publishes: the
//! order of the checks, and where each outside step leads. Each transition
//! consumes the flow and returns the next `Step`; the caller performs what
//! the step asks (an access check, a storage measurement, reading or storing
//! the body, counting bandwidth, publishing) and hands the outcome to the
//! transition the step names.

use vstd::prelude::*;
use vstd::utf8::{valid_utf8, decode_utf8};
use crate::actions::{Action, ActionView};
use crate::auth::{User, UserView};
use crate::config::Config;
use crate::message::{Message, MessageView, Attachment, AttachmentView, attachment_view, actions_view};
use crate::publish::{
    PublishError, PublishFields, FieldsView, PublishRequest, fields_of, with_request,
    fields_from_request, apply_request, access_refusal, check_publish_access, schedule_for,
    schedule_publish, attachment_limits_of, attachment_limits, attachment_expiry, has_attachment,
    storage_refusal, check_storage, lemma_schedule_within_bounds, stored_attachment, stored_attachment_of, linked_attachment,
    linked_attachment_of, notice_of, attachment_notice, published_message, new_message,
    classify_body, Body,
};
use crate::text::lit;

verus! {

/// The JSON body of a request sent as `application/json`.
pub enum JsonBody {
    /// The request is not JSON.
    Absent,
    /// The body could not be read.
    Unreadable,
    /// The body is not a publish request; the headers alone count.
    Invalid,
    /// A publish request.
    Request(PublishRequest),
}

/// A publish request on its way to a message.
pub struct PublishFlow {
    pub id: String,
    pub topic: String,
    pub fields: PublishFields,
    pub user: User,
    pub sender: String,
    /// The request came as JSON (its body is not the message).
    pub from_json: bool,
    pub time: i64,
    pub scheduled: bool,
    pub expires: i64,
    pub attachment: Option<Attachment>,
    /// The name of the file about to be stored.
    pub file_name: String,
}

pub struct FlowView {
    pub id: Seq<char>,
    pub topic: Seq<char>,
    pub fields: FieldsView,
    pub user: UserView,
    pub sender: Seq<char>,
    pub from_json: bool,
    pub time: i64,
    pub scheduled: bool,
    pub expires: i64,
    pub attachment: Option<AttachmentView>,
    pub file_name: Seq<char>,
}

impl View for PublishFlow {
    type V = FlowView;

    open spec fn view(&self) -> FlowView {
        FlowView {
            id: self.id@,
            topic: self.topic@,
            fields: self.fields@,
            user: self.user@,
            sender: self.sender@,
            from_json: self.from_json,
            time: self.time,
            scheduled: self.scheduled,
            expires: self.expires,
            attachment: attachment_view(self.attachment),
            file_name: self.file_name@,
        }
    }
}

/// What the caller does next.
pub enum Step {
    /// Answer with this refusal.
    Refuse(PublishError),
    /// Check that the user may write to the flow's topic, read the clock,
    /// and hand both to `access_checked`.
    CheckAccess(PublishFlow),
    /// Measure the bytes the attachment store holds and those the sender has
    /// stored (the user's when signed in, the address's otherwise), and hand
    /// them to `storage_measured`.
    MeasureStorage(PublishFlow),
    /// Read the body (stopping once it passes the message size limit) and
    /// hand it to `body_read`.
    ReadBody(PublishFlow),
    /// Ask the bandwidth limiter for this many bytes (those of the body
    /// already read); if granted, store the body (what was read of it first)
    /// as the attachment file; hand the outcome to `file_stored`.
    StoreFile(PublishFlow, usize),
    /// Count the stored file's size against the sender's bandwidth and
    /// hand the limiter's answer to `bandwidth_counted`.
    CountBandwidth(PublishFlow, u64),
    /// Remove the stored file with this id, then answer with the refusal.
    Discard(String, PublishError),
    /// Publish this message; then, if an address is given, email it there.
    Publish(Message, Option<String>),
}

pub enum StepView {
    Refuse(PublishError),
    CheckAccess(FlowView),
    MeasureStorage(FlowView),
    ReadBody(FlowView),
    StoreFile(FlowView, usize),
    CountBandwidth(FlowView, u64),
    Discard(Seq<char>, PublishError),
    Publish(MessageView, Option<Seq<char>>),
}

impl View for Step {
    type V = StepView;

    open spec fn view(&self) -> StepView {
        match self {
            Step::Refuse(e) => StepView::Refuse(*e),
            Step::CheckAccess(f) => StepView::CheckAccess(f@),
            Step::MeasureStorage(f) => StepView::MeasureStorage(f@),
            Step::ReadBody(f) => StepView::ReadBody(f@),
            Step::StoreFile(f, n) => StepView::StoreFile(f@, *n),
            Step::CountBandwidth(f, n) => StepView::CountBandwidth(f@, *n),
            Step::Discard(id, e) => StepView::Discard(id@, *e),
            Step::Publish(m, e) => StepView::Publish(m@, e.deep_view()),
        }
    }
}

/// How storing the attachment file went.
pub enum FileOutcome {
    /// The bandwidth limiter refused the bytes; nothing was stored.
    BandwidthRefused,
    /// Writing the file failed.
    WriteFailed,
    /// This many bytes were stored.
    Stored(u64),
}

// ---------------------------------------------------------------------------
// The transitions as functions of views
// ---------------------------------------------------------------------------

/// The fields a request sets: its headers and query parameters, overridden
/// by its JSON body when that is a publish request.
pub open spec fn request_fields(topic: Option<Seq<char>>, h: Seq<(Seq<char>, Seq<char>)>, p: Seq<(Seq<char>, Seq<char>)>, actions: Option<Seq<ActionView>>, json: JsonBody) -> FieldsView {
    let f = fields_of(topic, h, p, actions);
    match json {
        JsonBody::Request(r) => with_request(f, r),
        _ => f,
    }
}

pub open spec fn begin_of(id: Seq<char>, topic: Option<Seq<char>>, h: Seq<(Seq<char>, Seq<char>)>, p: Seq<(Seq<char>, Seq<char>)>, actions: Option<Seq<ActionView>>, json: JsonBody, user: UserView, sender: Seq<char>) -> StepView {
    if json is Unreadable {
        StepView::Refuse(PublishError::BodyUnreadable)
    } else {
        let f = request_fields(topic, h, p, actions, json);
        match f.topic {
            None => StepView::Refuse(PublishError::MissingTopic),
            Some(t) => StepView::CheckAccess(
                FlowView {
                    id,
                    topic: t,
                    fields: f,
                    user,
                    sender,
                    from_json: json is Request,
                    time: 0,
                    scheduled: false,
                    expires: 0,
                    attachment: None,
                    file_name: Seq::empty(),
                },
            ),
        }
    }
}

/// The message a flow ends in: an attachment link, when the request has
/// one, replaces any stored file; a message with an attachment and no text
/// gets a notice naming the file.
pub open spec fn finish_of(f: FlowView) -> StepView {
    let (att, text) = match f.fields.attachment_url {
        Some(url) => {
            let a = linked_attachment_of(url, f.fields.filename);
            (Some(a), notice_of(f.fields.message, a.name))
        },
        None => (f.attachment, f.fields.message),
    };
    let m = published_message(
        f.id,
        f.time,
        f.topic,
        FieldsView { message: text, ..f.fields },
        f.sender,
        f.user,
        f.scheduled,
        f.expires,
    );
    StepView::Publish(MessageView { attachment: att, ..m }, f.fields.email)
}

/// What happens to the body: a JSON request's body was the request; a
/// named file is stored; without an attachment link the body is read;
/// otherwise the message is ready.
pub open spec fn body_stage_of(f: FlowView) -> StepView {
    if f.from_json {
        finish_of(f)
    } else {
        match f.fields.filename {
            Some(n) => StepView::StoreFile(FlowView { file_name: n, ..f }, 0),
            None => if f.fields.attachment_url is None {
                StepView::ReadBody(f)
            } else {
                finish_of(f)
            },
        }
    }
}

/// After the schedule decision `s`: the message's time (the scheduled time,
/// or now), its attachment expiry, then the storage check when the request
/// has an attachment.
pub open spec fn after_schedule(f: FlowView, now: i64, config: Config, s: Result<Option<i64>, PublishError>) -> StepView {
    match s {
        Err(e) => StepView::Refuse(e),
        Ok(at) => {
            let expiry = attachment_limits_of(
                f.user,
                config.visitor_attachment_total_size_limit,
                config.attachment_expiry_duration,
            ).1;
            let f2 = FlowView {
                time: match at {
                    Some(t) => t,
                    None => now,
                },
                scheduled: at is Some,
                expires: now.wrapping_add_unsigned(expiry as u64),
                ..f
            };
            if has_attachment(f.fields) {
                StepView::MeasureStorage(f2)
            } else {
                body_stage_of(f2)
            }
        },
    }
}

/// After the access check: a refusal, or the schedule decision for the
/// request's delay at `now` (see `schedule_for`) and what follows it.
pub open spec fn after_access(f: FlowView, granted: Option<bool>, now: i64, config: Config) -> StepView {
    match access_refusal(granted, f.user.role) {
        Some(e) => StepView::Refuse(e),
        None => after_schedule(
            f,
            now,
            config,
            schedule_for(f.fields.delay, now, config.message_delay_min, config.message_delay_max),
        ),
    }
}

pub open spec fn after_storage(f: FlowView, global_used: u64, user_used: i64, config: Config) -> StepView {
    let user_limit = attachment_limits_of(
        f.user,
        config.visitor_attachment_total_size_limit,
        config.attachment_expiry_duration,
    ).0;
    match storage_refusal(global_used, config.total_attachment_size_limit, user_used, user_limit as i64) {
        Some(e) => StepView::Refuse(e),
        None => body_stage_of(f),
    }
}

/// A body within the limit that is text is the message; any other is
/// stored as `attachment.bin`, its bytes read so far asked of the bandwidth.
pub open spec fn after_body(f: FlowView, buffer: Seq<u8>, overflowed: bool) -> StepView {
    if !overflowed && valid_utf8(buffer) {
        finish_of(FlowView { fields: FieldsView { message: Some(decode_utf8(buffer)), ..f.fields }, ..f })
    } else {
        StepView::StoreFile(
            FlowView { file_name: "attachment.bin"@, ..f },
            buffer.len() as usize,
        )
    }
}

/// After storing the file: a refusal, or the file as the attachment (with a
/// notice as text when the message has none) and its size to count against
/// the sender's bandwidth.
pub open spec fn after_file(f: FlowView, outcome: FileOutcome, base_url: Seq<char>) -> StepView {
    match outcome {
        FileOutcome::BandwidthRefused => StepView::Refuse(PublishError::BandwidthExceeded),
        FileOutcome::WriteFailed => StepView::Refuse(PublishError::AttachmentWriteFailed),
        FileOutcome::Stored(size) => {
            let a = stored_attachment_of(f.file_name, size, f.expires, base_url, f.id);
            StepView::CountBandwidth(
                FlowView {
                    attachment: Some(a),
                    fields: FieldsView { message: notice_of(f.fields.message, a.name), ..f.fields },
                    ..f
                },
                size,
            )
        },
    }
}

/// After the limiter's answer for the stored file: the message, or,
/// when the bytes pass the sender's daily bandwidth, the file removed and
/// the request refused.
pub open spec fn after_count(f: FlowView, allowed: bool) -> StepView {
    if allowed {
        finish_of(f)
    } else {
        StepView::Discard(f.id, PublishError::BandwidthExceeded)
    }
}

// ---------------------------------------------------------------------------
// The transitions
// ---------------------------------------------------------------------------

impl PublishFlow {
    /// Starts a request: `id` is the new message's id, `topic` the topic in
    /// the path, `headers` (lower-case names) and `params` the request's,
    /// `actions` those of its `Actions` header, `json` its JSON body, `user`
    /// who sends it and `sender` from which address.
    pub fn begin(
        id: String,
        topic: Option<String>,
        headers: &Vec<(String, String)>,
        params: &Vec<(String, String)>,
        actions: Option<Vec<Action>>,
        json: JsonBody,
        user: User,
        sender: String,
    ) -> (r: Step)
        ensures
            r@ == begin_of(
                id@,
                topic.deep_view(),
                headers.deep_view(),
                params.deep_view(),
                actions_view(actions),
                json,
                user@,
                sender@,
            ),
    {
        let ghost topic_view = topic.deep_view();
        let ghost actions_v = actions_view(actions);
        let ghost json_v = json;
        let base = fields_from_request(topic, headers, params, actions);
        let (mut fields, from_json) = match json {
            JsonBody::Unreadable => {
                return Step::Refuse(PublishError::BodyUnreadable);
            },
            JsonBody::Request(r) => (apply_request(base, r), true),
            JsonBody::Absent => (base, false),
            JsonBody::Invalid => (base, false),
        };
        assert(fields@ == request_fields(topic_view, headers.deep_view(), params.deep_view(), actions_v, json_v));
        let ghost before = fields@;
        let t = match fields.topic.take() {
            Some(t) => t,
            None => {
                return Step::Refuse(PublishError::MissingTopic);
            },
        };
        // The flow keeps the request's fields as they were read.
        fields.topic = Some(t.clone());
        assert(fields@ == before);
        Step::CheckAccess(
            PublishFlow {
                id,
                topic: t,
                fields,
                user,
                sender,
                from_json,
                time: 0,
                scheduled: false,
                expires: 0,
                attachment: None,
                file_name: String::new(),
            },
        )
    }

    /// The message the flow ends in (see `finish_of`).
    fn finish(self) -> (r: Step)
        ensures
            r@ == finish_of(self@),
    {
        let ghost fv = self@;
        let PublishFlow {
            id,
            topic,
            mut fields,
            user,
            sender,
            from_json: _,
            time,
            scheduled,
            expires,
            attachment,
            file_name: _,
        } = self;
        let email = fields.email.take();
        let (att, text) = match fields.attachment_url.take() {
            Some(url) => {
                let a = linked_attachment(url, fields.filename.take());
                let text = attachment_notice(fields.message.take(), a.name.as_str());
                (Some(a), text)
            },
            None => (attachment, fields.message.take()),
        };
        fields.message = text;
        let mut m = new_message(id, time, topic, fields, sender, &user, scheduled, expires);
        m.attachment = att;
        let r = Step::Publish(m, email);
        assert(r@ == finish_of(fv));
        r
    }

    /// What happens to the body (see `body_stage_of`).
    fn body_stage(self) -> (r: Step)
        ensures
            r@ == body_stage_of(self@),
    {
        if self.from_json {
            return self.finish();
        }
        let mut f = self;
        let ghost fv = f@;
        match &f.fields.filename {
            Some(n) => {
                f.file_name = n.clone();
                assert(f@ == FlowView { file_name: n@, ..fv });
                Step::StoreFile(f, 0)
            },
            None => {
                if f.fields.attachment_url.is_none() {
                    Step::ReadBody(f)
                } else {
                    f.finish()
                }
            },
        }
    }

    /// The outcome of the access check (`None` when the check itself
    /// failed), with the clock's reading `now`.
    pub fn access_checked(self, granted: Option<bool>, now: i64, config: &Config) -> (r: Step)
        ensures
            r@ == after_access(self@, granted, now, *config),
    {
        match check_publish_access(granted, self.user.role) {
            Err(e) => {
                return Step::Refuse(e);
            },
            Ok(()) => {},
        }
        let ghost fv = self@;
        let delay = match &self.fields.delay {
            Some(d) => Some(d.as_str()),
            None => None,
        };
        let s = schedule_publish(delay, now, config.message_delay_min, config.message_delay_max);
        assert(s == schedule_for(fv.fields.delay, now, config.message_delay_min, config.message_delay_max));
        let at = match s {
            Err(e) => {
                return Step::Refuse(e);
            },
            Ok(at) => at,
        };
        let (_, expiry_secs) = attachment_limits(&self.user, config);
        let mut f = self;
        match at {
            Some(t) => {
                f.time = t;
                f.scheduled = true;
            },
            None => {
                f.time = now;
                f.scheduled = false;
            },
        }
        f.expires = attachment_expiry(now, expiry_secs);
        let r = if f.fields.filename.is_some() || f.fields.attachment_url.is_some() {
            Step::MeasureStorage(f)
        } else {
            f.body_stage()
        };
        assert(r@ == after_schedule(fv, now, *config, s));
        r
    }

    /// The stored attachment bytes: the server's total and the sender's.
    pub fn storage_measured(self, global_used: u64, user_used: i64, config: &Config) -> (r: Step)
        ensures
            r@ == after_storage(self@, global_used, user_used, *config),
    {
        let (user_limit, _) = attachment_limits(&self.user, config);
        match check_storage(global_used, config.total_attachment_size_limit, user_used, user_limit) {
            Err(e) => Step::Refuse(e),
            Ok(()) => self.body_stage(),
        }
    }

    /// The body as read: `buffer`, and whether reading stopped because it
    /// passed the size limit.
    pub fn body_read(self, buffer: &[u8], overflowed: bool) -> (r: Step)
        ensures
            r@ == after_body(self@, buffer@, overflowed),
    {
        let ghost fv = self@;
        let mut f = self;
        match classify_body(vstd::slice::slice_to_vec(buffer), overflowed) {
            Body::Text(text) => {
                f.fields.message = Some(text);
                return f.finish();
            },
            Body::File => {},
        }
        f.file_name = lit("attachment.bin");
        assert(f@ == FlowView { file_name: "attachment.bin"@, ..fv });
        Step::StoreFile(f, buffer.len())
    }

    /// How storing the file went; `base_url` is the server's address.
    pub fn file_stored(self, outcome: FileOutcome, base_url: &str) -> (r: Step)
        ensures
            r@ == after_file(self@, outcome, base_url@),
    {
        match outcome {
            FileOutcome::BandwidthRefused => Step::Refuse(PublishError::BandwidthExceeded),
            FileOutcome::WriteFailed => Step::Refuse(PublishError::AttachmentWriteFailed),
            FileOutcome::Stored(size) => {
                let ghost fv = self@;
                let mut f = self;
                let a = stored_attachment(f.file_name.clone(), size, f.expires, base_url, f.id.as_str());
                f.fields.message = attachment_notice(f.fields.message.take(), a.name.as_str());
                f.attachment = Some(a);
                Step::CountBandwidth(f, size)
            },
        }
    }

    /// The bandwidth limiter's answer for the stored file's size.
    pub fn bandwidth_counted(self, allowed: bool) -> (r: Step)
        ensures
            r@ == after_count(self@, allowed),
    {
        if allowed {
            self.finish()
        } else {
            Step::Discard(self.id, PublishError::BandwidthExceeded)
        }
    }
}

// ---------------------------------------------------------------------------
// What every step keeps
// ---------------------------------------------------------------------------

/// A flow never holds an attachment without message text.
pub open spec fn flow_inv(f: FlowView) -> bool {
    f.attachment is Some ==> f.fields.message is Some
}

/// Every flow a step carries keeps `flow_inv`, and a message with an
/// attachment always has text.
pub open spec fn step_inv(s: StepView) -> bool {
    match s {
        StepView::Refuse(_) => true,
        StepView::CheckAccess(f) => flow_inv(f),
        StepView::MeasureStorage(f) => flow_inv(f),
        StepView::ReadBody(f) => flow_inv(f),
        StepView::StoreFile(f, _) => flow_inv(f),
        StepView::CountBandwidth(f, _) => flow_inv(f),
        StepView::Discard(_, _) => true,
        StepView::Publish(m, _) => m.attachment is Some ==> m.message is Some,
    }
}

/// A published message that carries an attachment always has text (its
/// own, or a notice naming the file): every transition keeps `step_inv`.
pub proof fn lemma_attachments_have_text(
    f: FlowView,
    id: Seq<char>,
    topic: Option<Seq<char>>,
    h: Seq<(Seq<char>, Seq<char>)>,
    p: Seq<(Seq<char>, Seq<char>)>,
    actions: Option<Seq<ActionView>>,
    json: JsonBody,
    user: UserView,
    sender: Seq<char>,
    now: i64,
    config: Config,
    s: Result<Option<i64>, PublishError>,
    global_used: u64,
    user_used: i64,
    buffer: Seq<u8>,
    overflowed: bool,
    outcome: FileOutcome,
    base_url: Seq<char>,
    granted: Option<bool>,
    allowed: bool,
)
    requires
        flow_inv(f),
    ensures
        step_inv(begin_of(id, topic, h, p, actions, json, user, sender)),
        step_inv(after_schedule(f, now, config, s)),
        step_inv(after_storage(f, global_used, user_used, config)),
        step_inv(after_body(f, buffer, overflowed)),
        step_inv(after_file(f, outcome, base_url)),
        step_inv(after_count(f, allowed)),
        step_inv(after_access(f, granted, now, config)),
        step_inv(finish_of(f)),
{
    let fv = FlowView { fields: FieldsView { message: Some(decode_utf8(buffer)), ..f.fields }, ..f };
    assert(step_inv(finish_of(fv)));
    match s {
        Ok(at) => {
            let expiry = attachment_limits_of(
                f.user,
                config.visitor_attachment_total_size_limit,
                config.attachment_expiry_duration,
            ).1;
            let f2 = FlowView {
                time: match at {
                    Some(t) => t,
                    None => now,
                },
                scheduled: at is Some,
                expires: now.wrapping_add_unsigned(expiry as u64),
                ..f
            };
            assert(step_inv(finish_of(f2)));
        },
        Err(_) => {},
    }
    let s2 = schedule_for(f.fields.delay, now, config.message_delay_min, config.message_delay_max);
    match s2 {
        Ok(at) => {
            let expiry = attachment_limits_of(
                f.user,
                config.visitor_attachment_total_size_limit,
                config.attachment_expiry_duration,
            ).1;
            let f2 = FlowView {
                time: match at {
                    Some(t) => t,
                    None => now,
                },
                scheduled: at is Some,
                expires: now.wrapping_add_unsigned(expiry as u64),
                ..f
            };
            assert(step_inv(finish_of(f2)));
        },
        Err(_) => {},
    }
}

/// A stored file is counted in full against the sender's daily bandwidth
/// once it is written, and when the limiter refuses it the file is removed
/// and the request refused.
pub proof fn lemma_uploads_fully_counted(f: FlowView, size: u64, base_url: Seq<char>)
    ensures
        after_file(f, FileOutcome::Stored(size), base_url) matches StepView::CountBandwidth(g, n) && n
            == size && g.id == f.id && after_count(g, false) == StepView::Discard(
            f.id,
            PublishError::BandwidthExceeded,
        ),
{
}

/// A delayed message waits: its time is the scheduled one, within the
/// configured bounds, every later step keeps that time, and the message is
/// stored unpublished (a message without a delay goes out at once, at `now`).
pub proof fn lemma_delayed_messages_wait(f: FlowView, now: i64, config: Config, at: Option<i64>)
    requires
        schedule_for(f.fields.delay, now, config.message_delay_min, config.message_delay_max) == Ok::<
            Option<i64>,
            PublishError,
        >(at),
    ensures
        at matches Some(t) ==> t > now && t - now >= (config.message_delay_min as i64) && t - now
            <= (config.message_delay_max as i64),
        match after_schedule(f, now, config, Ok(at)) {
            StepView::MeasureStorage(g) => g.scheduled == at is Some && g.time == (match at {
                Some(t) => t,
                None => now,
            }),
            StepView::ReadBody(g) => g.scheduled == at is Some && g.time == (match at {
                Some(t) => t,
                None => now,
            }),
            StepView::StoreFile(g, _) => g.scheduled == at is Some && g.time == (match at {
                Some(t) => t,
                None => now,
            }),
            StepView::Publish(m, _) => m.published == at is None && m.time == (match at {
                Some(t) => t,
                None => now,
            }),
            _ => false,
        },
        finish_of(f) matches StepView::Publish(m, _) && m.published == !f.scheduled && m.time == f.time,
{
    lemma_schedule_within_bounds(f.fields.delay, now, config.message_delay_min, config.message_delay_max);
}

} // verus!

