//! Notification messages, their attachments, the row in which the message
//! cache stores them, and the text forms in which subscribers receive them.

use vstd::prelude::*;
use crate::actions::{Action, ActionView};
use crate::text::{
    lit, chars_of, string_of, str_eq, split_strings, join_strings, split, join, splittable,
    lemma_split_join, push_str,
};

verus! {

// ---------------------------------------------------------------------------
// Event names
// ---------------------------------------------------------------------------

pub open spec fn event_message() -> Seq<char> {
    "message"@
}

pub open spec fn event_open() -> Seq<char> {
    "open"@
}

pub open spec fn event_keepalive() -> Seq<char> {
    "keepalive"@
}

pub open spec fn event_poll_request() -> Seq<char> {
    "poll_request"@
}

pub open spec fn event_delete() -> Seq<char> {
    "message_delete"@
}

pub open spec fn event_clear() -> Seq<char> {
    "message_clear"@
}

// ---------------------------------------------------------------------------
// Messages
// ---------------------------------------------------------------------------

/// A file attached to a message, stored here or elsewhere.
pub struct Attachment {
    pub name: String,
    pub type_: Option<String>,
    pub size: Option<i64>,
    pub expires: Option<i64>,
    pub url: String,
}

pub struct AttachmentView {
    pub name: Seq<char>,
    pub type_: Option<Seq<char>>,
    pub size: Option<i64>,
    pub expires: Option<i64>,
    pub url: Seq<char>,
}

impl View for Attachment {
    type V = AttachmentView;

    open spec fn view(&self) -> AttachmentView {
        AttachmentView {
            name: self.name@,
            type_: self.type_.deep_view(),
            size: self.size,
            expires: self.expires,
            url: self.url@,
        }
    }
}

/// A notification, or one of the control events sent on a topic.
pub struct Message {
    pub id: String,
    pub sequence_id: Option<String>,
    pub time: i64,
    pub expires: Option<i64>,
    pub event: String,
    pub topic: String,
    pub title: Option<String>,
    pub message: Option<String>,
    pub priority: Option<i32>,
    pub tags: Option<Vec<String>>,
    pub click: Option<String>,
    pub icon: Option<String>,
    pub actions: Option<Vec<Action>>,
    pub attachment: Option<Attachment>,
    pub poll_id: Option<String>,
    pub content_type: Option<String>,
    pub encoding: Option<String>,
    pub sender: Option<String>,
    pub user: Option<String>,
    pub published: bool,
}

pub struct MessageView {
    pub id: Seq<char>,
    pub sequence_id: Option<Seq<char>>,
    pub time: i64,
    pub expires: Option<i64>,
    pub event: Seq<char>,
    pub topic: Seq<char>,
    pub title: Option<Seq<char>>,
    pub message: Option<Seq<char>>,
    pub priority: Option<i32>,
    pub tags: Option<Seq<Seq<char>>>,
    pub click: Option<Seq<char>>,
    pub icon: Option<Seq<char>>,
    pub actions: Option<Seq<ActionView>>,
    pub attachment: Option<AttachmentView>,
    pub poll_id: Option<Seq<char>>,
    pub content_type: Option<Seq<char>>,
    pub encoding: Option<Seq<char>>,
    pub sender: Option<Seq<char>>,
    pub user: Option<Seq<char>>,
    pub published: bool,
}

pub open spec fn actions_view(a: Option<Vec<Action>>) -> Option<Seq<ActionView>> {
    match a {
        Some(v) => Some(v@.map_values(|x: Action| x@)),
        None => None,
    }
}

pub open spec fn attachment_view(a: Option<Attachment>) -> Option<AttachmentView> {
    match a {
        Some(x) => Some(x@),
        None => None,
    }
}

impl View for Message {
    type V = MessageView;

    open spec fn view(&self) -> MessageView {
        MessageView {
            id: self.id@,
            sequence_id: self.sequence_id.deep_view(),
            time: self.time,
            expires: self.expires,
            event: self.event@,
            topic: self.topic@,
            title: self.title.deep_view(),
            message: self.message.deep_view(),
            priority: self.priority,
            tags: self.tags.deep_view(),
            click: self.click.deep_view(),
            icon: self.icon.deep_view(),
            actions: actions_view(self.actions),
            attachment: attachment_view(self.attachment),
            poll_id: self.poll_id.deep_view(),
            content_type: self.content_type.deep_view(),
            encoding: self.encoding.deep_view(),
            sender: self.sender.deep_view(),
            user: self.user.deep_view(),
            published: self.published,
        }
    }
}

pub fn clone_string(s: &String) -> (r: String)
    ensures
        r@ == s@,
{
    s.clone()
}

pub fn clone_opt_string(o: &Option<String>) -> (r: Option<String>)
    ensures
        r.deep_view() == o.deep_view(),
{
    match o {
        Some(s) => Some(s.clone()),
        None => None,
    }
}

/// An `open` event, sent first on every subscription.
pub open spec fn open_event(id: Seq<char>, time: i64, topic: Seq<char>) -> MessageView {
    MessageView {
        id,
        sequence_id: None,
        time,
        expires: None,
        event: event_open(),
        topic,
        title: None,
        message: None,
        priority: None,
        tags: None,
        click: None,
        icon: None,
        actions: None,
        attachment: None,
        poll_id: None,
        content_type: None,
        encoding: None,
        sender: None,
        user: None,
        published: true,
    }
}

pub fn open_message(id: String, time: i64, topic: String) -> (m: Message)
    ensures
        m@ == open_event(id@, time, topic@),
{
    Message {
        id,
        sequence_id: None,
        time,
        expires: None,
        event: lit("open"),
        topic,
        title: None,
        message: None,
        priority: None,
        tags: None,
        click: None,
        icon: None,
        actions: None,
        attachment: None,
        poll_id: None,
        content_type: None,
        encoding: None,
        sender: None,
        user: None,
        published: true,
    }
}

// ---------------------------------------------------------------------------
// The stored row
// ---------------------------------------------------------------------------

/// The columns of the message cache for one message.
pub struct MessageRow {
    pub mid: String,
    pub sequence_id: String,
    pub time: i64,
    pub event: String,
    pub expires: i64,
    pub topic: String,
    pub message: String,
    pub title: String,
    pub priority: i32,
    pub tags: String,
    pub click: String,
    pub icon: String,
    pub actions: String,
    pub attachment_name: String,
    pub attachment_type: String,
    pub attachment_size: i64,
    pub attachment_expires: i64,
    pub attachment_url: String,
    pub sender: String,
    pub user: String,
    pub content_type: String,
    pub encoding: String,
    pub published: bool,
}

pub struct RowView {
    pub mid: Seq<char>,
    pub sequence_id: Seq<char>,
    pub time: i64,
    pub event: Seq<char>,
    pub expires: i64,
    pub topic: Seq<char>,
    pub message: Seq<char>,
    pub title: Seq<char>,
    pub priority: i32,
    pub tags: Seq<char>,
    pub click: Seq<char>,
    pub icon: Seq<char>,
    pub actions: Seq<char>,
    pub attachment_name: Seq<char>,
    pub attachment_type: Seq<char>,
    pub attachment_size: i64,
    pub attachment_expires: i64,
    pub attachment_url: Seq<char>,
    pub sender: Seq<char>,
    pub user: Seq<char>,
    pub content_type: Seq<char>,
    pub encoding: Seq<char>,
    pub published: bool,
}

impl View for MessageRow {
    type V = RowView;

    open spec fn view(&self) -> RowView {
        RowView {
            mid: self.mid@,
            sequence_id: self.sequence_id@,
            time: self.time,
            event: self.event@,
            expires: self.expires,
            topic: self.topic@,
            message: self.message@,
            title: self.title@,
            priority: self.priority,
            tags: self.tags@,
            click: self.click@,
            icon: self.icon@,
            actions: self.actions@,
            attachment_name: self.attachment_name@,
            attachment_type: self.attachment_type@,
            attachment_size: self.attachment_size,
            attachment_expires: self.attachment_expires,
            attachment_url: self.attachment_url@,
            sender: self.sender@,
            user: self.user@,
            content_type: self.content_type@,
            encoding: self.encoding@,
            published: self.published,
        }
    }
}

pub open spec fn or_empty(o: Option<Seq<char>>) -> Seq<char> {
    match o {
        Some(s) => s,
        None => Seq::empty(),
    }
}

pub open spec fn or_zero(o: Option<i64>) -> i64 {
    match o {
        Some(v) => v,
        None => 0,
    }
}

/// The row written for a message; `actions_json` is the JSON text of its
/// actions, when it has some.
pub open spec fn row_of(m: MessageView, actions_json: Seq<char>) -> RowView {
    RowView {
        mid: m.id,
        sequence_id: or_empty(m.sequence_id),
        time: m.time,
        event: m.event,
        expires: or_zero(m.expires),
        topic: m.topic,
        message: or_empty(m.message),
        title: or_empty(m.title),
        priority: match m.priority {
            Some(p) => p,
            None => 0,
        },
        tags: match m.tags {
            Some(t) => join(t, ','),
            None => Seq::empty(),
        },
        click: or_empty(m.click),
        icon: or_empty(m.icon),
        actions: if m.actions is Some {
            actions_json
        } else {
            Seq::empty()
        },
        attachment_name: match m.attachment {
            Some(a) => a.name,
            None => Seq::empty(),
        },
        attachment_type: match m.attachment {
            Some(a) => or_empty(a.type_),
            None => Seq::empty(),
        },
        attachment_size: match m.attachment {
            Some(a) => or_zero(a.size),
            None => 0,
        },
        attachment_expires: match m.attachment {
            Some(a) => or_zero(a.expires),
            None => 0,
        },
        attachment_url: match m.attachment {
            Some(a) => a.url,
            None => Seq::empty(),
        },
        sender: or_empty(m.sender),
        user: or_empty(m.user),
        content_type: or_empty(m.content_type),
        encoding: or_empty(m.encoding),
        published: m.published,
    }
}

fn or_empty_string(o: &Option<String>) -> (r: String)
    ensures
        r@ == or_empty(o.deep_view()),
{
    match o {
        Some(s) => s.clone(),
        None => String::new(),
    }
}

/// The row that stores a message. `actions_json` is what the caller made of
/// the message's actions; it is used only when the message has actions.
pub fn message_to_row(m: &Message, actions_json: String) -> (r: MessageRow)
    ensures
        r@ == row_of(m@, actions_json@),
{
    let tags = match &m.tags {
        Some(t) => {
            assert(t@.map_values(|x: String| x@) =~= t.deep_view());
            join_strings(t, ',')
        },
        None => String::new(),
    };
    let actions = if m.actions.is_some() {
        actions_json
    } else {
        String::new()
    };
    let (att_name, att_type, att_size, att_expires, att_url) = match &m.attachment {
        Some(a) => (
            a.name.clone(),
            or_empty_string(&a.type_),
            match a.size {
                Some(s) => s,
                None => 0,
            },
            match a.expires {
                Some(e) => e,
                None => 0,
            },
            a.url.clone(),
        ),
        None => (String::new(), String::new(), 0, 0, String::new()),
    };
    MessageRow {
        mid: m.id.clone(),
        sequence_id: or_empty_string(&m.sequence_id),
        time: m.time,
        event: m.event.clone(),
        expires: match m.expires {
            Some(e) => e,
            None => 0,
        },
        topic: m.topic.clone(),
        message: or_empty_string(&m.message),
        title: or_empty_string(&m.title),
        priority: match m.priority {
            Some(p) => p,
            None => 0,
        },
        tags,
        click: or_empty_string(&m.click),
        icon: or_empty_string(&m.icon),
        actions,
        attachment_name: att_name,
        attachment_type: att_type,
        attachment_size: att_size,
        attachment_expires: att_expires,
        attachment_url: att_url,
        sender: or_empty_string(&m.sender),
        user: or_empty_string(&m.user),
        content_type: or_empty_string(&m.content_type),
        encoding: or_empty_string(&m.encoding),
        published: m.published,
    }
}

/// The message read back from a row. `parsed_actions` is what the caller
/// made of the row's actions text (`None` when that text is not valid JSON);
/// `published` is the published flag the reading query gives the message.
pub open spec fn message_of(row: RowView, parsed_actions: Option<Seq<ActionView>>, published: bool) -> MessageView {
    MessageView {
        id: row.mid,
        sequence_id: Some(row.sequence_id),
        time: row.time,
        expires: Some(row.expires),
        event: row.event,
        topic: row.topic,
        title: Some(row.title),
        message: Some(row.message),
        priority: Some(row.priority),
        tags: if row.tags.len() == 0 {
            None
        } else {
            Some(split(row.tags, ','))
        },
        click: Some(row.click),
        icon: Some(row.icon),
        actions: if row.actions.len() == 0 {
            None
        } else {
            parsed_actions
        },
        attachment: if row.attachment_name.len() == 0 {
            None
        } else {
            Some(
                AttachmentView {
                    name: row.attachment_name,
                    type_: Some(row.attachment_type),
                    size: Some(row.attachment_size),
                    expires: Some(row.attachment_expires),
                    url: row.attachment_url,
                },
            )
        },
        poll_id: None,
        content_type: Some(row.content_type),
        encoding: Some(row.encoding),
        sender: Some(row.sender),
        user: Some(row.user),
        published,
    }
}

fn read_message(row: MessageRow, parsed_actions: Option<Vec<Action>>, published: bool) -> (m:
    Message)
    ensures
        m@ == message_of(row@, actions_view(parsed_actions), published),
        m.actions == kept_actions(row@, parsed_actions),
{
    let tag_chars = chars_of(row.tags.as_str());
    let tags = if tag_chars.len() == 0 {
        None
    } else {
        Some(split_strings(&tag_chars, ','))
    };
    let actions = if chars_of(row.actions.as_str()).len() == 0 {
        None
    } else {
        parsed_actions
    };
    let attachment = if chars_of(row.attachment_name.as_str()).len() == 0 {
        None
    } else {
        Some(
            Attachment {
                name: row.attachment_name,
                type_: Some(row.attachment_type),
                size: Some(row.attachment_size),
                expires: Some(row.attachment_expires),
                url: row.attachment_url,
            },
        )
    };
    let m = Message {
        id: row.mid,
        sequence_id: Some(row.sequence_id),
        time: row.time,
        expires: Some(row.expires),
        event: row.event,
        topic: row.topic,
        title: Some(row.title),
        message: Some(row.message),
        priority: Some(row.priority),
        tags,
        click: Some(row.click),
        icon: Some(row.icon),
        actions,
        attachment,
        poll_id: None,
        content_type: Some(row.content_type),
        encoding: Some(row.encoding),
        sender: Some(row.sender),
        user: Some(row.user),
        published,
    };
    assert(m@.tags == message_of(row@, actions_view(parsed_actions), published).tags);
    m
}

/// The actions a message read back holds: those handed in (ids and all),
/// unless the row stores none.
pub open spec fn kept_actions(row: RowView, parsed_actions: Option<Vec<Action>>) -> Option<Vec<Action>> {
    if row.actions.len() == 0 {
        None
    } else {
        parsed_actions
    }
}

/// A message of a topic's cache, as a subscriber asking for cached messages
/// gets it: published as the row says.
pub fn message_from_row(row: MessageRow, parsed_actions: Option<Vec<Action>>) -> (m: Message)
    ensures
        m@ == message_of(row@, actions_view(parsed_actions), row@.published),
        m.actions == kept_actions(row@, parsed_actions),
{
    let published = row.published;
    read_message(row, parsed_actions, published)
}

/// A scheduled message that has fallen due, not yet published.
pub fn due_message_from_row(row: MessageRow, parsed_actions: Option<Vec<Action>>) -> (m: Message)
    ensures
        m@ == message_of(row@, actions_view(parsed_actions), false),
        m.actions == kept_actions(row@, parsed_actions),
{
    read_message(row, parsed_actions, false)
}

/// What a message looks like after a trip through the cache: every optional
/// text and number filled in, the poll id dropped, the actions replaced by
/// what was parsed back.
pub open spec fn as_stored(m: MessageView, parsed_actions: Option<Seq<ActionView>>) -> MessageView {
    MessageView {
        sequence_id: Some(or_empty(m.sequence_id)),
        expires: Some(or_zero(m.expires)),
        title: Some(or_empty(m.title)),
        message: Some(or_empty(m.message)),
        priority: Some(
            match m.priority {
                Some(p) => p,
                None => 0,
            },
        ),
        click: Some(or_empty(m.click)),
        icon: Some(or_empty(m.icon)),
        actions: if m.actions is Some {
            parsed_actions
        } else {
            None
        },
        attachment: match m.attachment {
            Some(a) => Some(
                AttachmentView {
                    name: a.name,
                    type_: Some(or_empty(a.type_)),
                    size: Some(or_zero(a.size)),
                    expires: Some(or_zero(a.expires)),
                    url: a.url,
                },
            ),
            None => None,
        },
        poll_id: None,
        content_type: Some(or_empty(m.content_type)),
        encoding: Some(or_empty(m.encoding)),
        sender: Some(or_empty(m.sender)),
        user: Some(or_empty(m.user)),
        ..m
    }
}

/// Messages whose tags and attachment survive the cache unchanged: the tags,
/// when present, split back into themselves (no tag holds a comma, and they
/// do not join to the empty text), and an attachment has a name.
pub open spec fn storable(m: MessageView) -> bool {
    &&& (m.tags matches Some(t) ==> splittable(t, ',') && join(t, ',').len() > 0)
    &&& (m.attachment matches Some(a) ==> a.name.len() > 0)
}

/// Reading back what was written: a storable message, written with the
/// (non-empty) JSON text of its actions and read with the actions parsed
/// from that text, comes back as `as_stored` describes, with its published
/// flag kept.
pub proof fn lemma_row_roundtrip(m: MessageView, actions_json: Seq<char>, parsed_actions: Option<Seq<ActionView>>)
    requires
        storable(m),
        m.actions is Some ==> actions_json.len() > 0,
    ensures
        message_of(row_of(m, actions_json), parsed_actions, m.published) == as_stored(
            m,
            parsed_actions,
        ),
{
    match m.tags {
        Some(t) => {
            lemma_split_join(t, ',');
        },
        None => {},
    }
}

// ---------------------------------------------------------------------------
// The plain-text subscription format
// ---------------------------------------------------------------------------

/// `s` with every `from` replaced by `to`.
pub open spec fn replace_char(s: Seq<char>, from: char, to: char) -> Seq<char> {
    s.map_values(|c: char| if c == from {
        to
    } else {
        c
    })
}

/// The line a raw subscriber gets for a message: its text on one line (line
/// breaks turned into spaces), or an empty line for any other event.
pub open spec fn raw_line(m: MessageView) -> Seq<char> {
    if m.event == event_message() {
        replace_char(or_empty(m.message), '\n', ' ').push('\n')
    } else {
        seq!['\n']
    }
}

pub fn encode_raw(m: &Message) -> (r: String)
    ensures
        r@ == raw_line(m@),
{
    if str_eq(m.event.as_str(), "message") {
        let text = match &m.message {
            Some(s) => chars_of(s.as_str()),
            None => Vec::new(),
        };
        let mut out: Vec<char> = Vec::new();
        let mut i: usize = 0;
        while i < text.len()
            invariant
                i <= text.len(),
                out@ == replace_char(text@.take(i as int), '\n', ' '),
            decreases text.len() - i,
        {
            out.push(if text[i] == '\n' {
                ' '
            } else {
                text[i]
            });
            assert(text@.take(i + 1) == text@.take(i as int).push(text@[i as int]));
            i = i + 1;
        }
        assert(text@.take(text.len() as int) == text@);
        out.push('\n');
        string_of(&out)
    } else {
        let mut out: Vec<char> = Vec::new();
        out.push('\n');
        string_of(&out)
    }
}

} // verus!
