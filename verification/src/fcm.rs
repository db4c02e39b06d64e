//! The Firebase Cloud Messaging payload built for a message.

use vstd::prelude::*;
use crate::actions::StringMap;
use crate::message::{
    Message, MessageView, clone_string, clone_opt_string, event_message, event_open,
    event_keepalive, event_poll_request, event_delete, event_clear,
};
use crate::text::{lit, chars_of, string_of, str_eq, i64_to_string, int_decimal, join, join_strings};

verus! {

pub struct FcmApsAlert {
    pub title: Option<String>,
    pub body: String,
}

pub struct FcmAps {
    pub mutable_content: Option<i32>,
    pub content_available: Option<i32>,
    pub alert: Option<FcmApsAlert>,
}

pub struct FcmApnsPayload {
    pub aps: FcmAps,
    pub custom_data: StringMap,
}

pub struct FcmApnsConfig {
    pub headers: StringMap,
    pub payload: FcmApnsPayload,
}

pub struct FcmAndroidConfig {
    pub priority: String,
}

pub struct FcmMessagePayload {
    pub topic: String,
    pub data: StringMap,
    pub android: Option<FcmAndroidConfig>,
    pub apns: Option<FcmApnsConfig>,
}

/// The request body sent to FCM.
pub struct FcmMessage {
    pub message: FcmMessagePayload,
}

/// The parts of an FCM request that depend on the message.
pub struct FcmView {
    pub topic: Seq<char>,
    pub data: Map<Seq<char>, Seq<char>>,
    pub android_priority: Option<Seq<char>>,
    pub has_apns: bool,
    pub apns_headers: Map<Seq<char>, Seq<char>>,
    pub mutable_content: Option<i32>,
    pub content_available: Option<i32>,
    pub alert: Option<(Option<Seq<char>>, Seq<char>)>,
    pub custom_data: Map<Seq<char>, Seq<char>>,
}

impl View for FcmMessage {
    type V = FcmView;

    open spec fn view(&self) -> FcmView {
        let p = self.message;
        FcmView {
            topic: p.topic@,
            data: p.data@,
            android_priority: match p.android {
                Some(a) => Some(a.priority@),
                None => None,
            },
            has_apns: p.apns is Some,
            apns_headers: match p.apns {
                Some(a) => a.headers@,
                None => Map::empty(),
            },
            mutable_content: match p.apns {
                Some(a) => a.payload.aps.mutable_content,
                None => None,
            },
            content_available: match p.apns {
                Some(a) => a.payload.aps.content_available,
                None => None,
            },
            alert: match p.apns {
                Some(a) => match a.payload.aps.alert {
                    Some(al) => Some((al.title.deep_view(), al.body@)),
                    None => None,
                },
                None => None,
            },
            custom_data: match p.apns {
                Some(a) => a.payload.custom_data@,
                None => Map::empty(),
            },
        }
    }
}

pub open spec fn put(m: Map<Seq<char>, Seq<char>>, k: Seq<char>, v: Option<Seq<char>>) -> Map<Seq<char>, Seq<char>> {
    match v {
        Some(x) => m.insert(k, x),
        None => m,
    }
}

pub open spec fn is_background(event: Seq<char>) -> bool {
    event == event_keepalive() || event == event_open() || event == event_delete() || event
        == event_clear()
}

/// The data fields every payload carries.
pub open spec fn base_data(m: MessageView) -> Map<Seq<char>, Seq<char>> {
    Map::<Seq<char>, Seq<char>>::empty().insert("id"@, m.id).insert("time"@, int_decimal(m.time as int)).insert(
        "event"@,
        m.event,
    ).insert("topic"@, m.topic)
}

/// The data fields of a notification.
pub open spec fn message_data(m: MessageView, actions_json: Option<Seq<char>>) -> Map<Seq<char>, Seq<char>> {
    let d = put(base_data(m), "sequence_id"@, m.sequence_id);
    let d = put(d, "priority"@, match m.priority {
        Some(p) => Some(int_decimal(p as int)),
        None => None,
    });
    let d = put(d, "tags"@, match m.tags {
        Some(t) => Some(join(t, ',')),
        None => None,
    });
    let d = put(d, "click"@, m.click);
    let d = put(d, "icon"@, m.icon);
    let d = put(d, "title"@, m.title);
    let d = put(d, "message"@, m.message);
    let d = put(d, "content_type"@, m.content_type);
    let d = put(d, "encoding"@, m.encoding);
    let d = put(d, "actions"@, actions_json);
    match m.attachment {
        Some(a) => {
            let d = d.insert("attachment_name"@, a.name);
            let d = put(d, "attachment_type"@, a.type_);
            let d = put(d, "attachment_size"@, match a.size {
                Some(s) => Some(int_decimal(s as int)),
                None => None,
            });
            let d = put(d, "attachment_expires"@, match a.expires {
                Some(e) => Some(int_decimal(e as int)),
                None => None,
            });
            d.insert("attachment_url"@, a.url)
        },
        None => d,
    }
}

/// The data fields sent for a message of any event.
pub open spec fn fcm_data(m: MessageView, actions_json: Option<Seq<char>>) -> Map<Seq<char>, Seq<char>> {
    if m.event == event_keepalive() || m.event == event_open() {
        base_data(m)
    } else if m.event == event_poll_request() {
        put(base_data(m).insert("message"@, "New message"@), "poll_id"@, m.poll_id)
    } else if m.event == event_delete() || m.event == event_clear() {
        put(base_data(m), "sequence_id"@, m.sequence_id)
    } else if m.event == event_message() {
        message_data(m, actions_json)
    } else {
        base_data(m)
    }
}

/// The APNs alert: shown for notifications and poll requests.
pub open spec fn fcm_alert(m: MessageView) -> Option<(Option<Seq<char>>, Seq<char>)> {
    if is_background(m.event) {
        None
    } else if m.event == event_poll_request() {
        Some((m.title, "New message"@))
    } else if m.event == event_message() {
        Some(
            (
                m.title,
                match m.message {
                    Some(t) => t,
                    None => "New message"@,
                },
            ),
        )
    } else {
        None
    }
}

/// The FCM request for a message. `actions_json` is the JSON text of the
/// message's actions.
pub open spec fn fcm_of(m: MessageView, actions_json: Option<Seq<char>>) -> FcmView {
    let data = fcm_data(m, actions_json);
    FcmView {
        topic: m.topic,
        data,
        android_priority: if (match m.priority {
            Some(p) => p,
            None => 3,
        }) >= 4 {
            Some("high"@)
        } else {
            None
        },
        has_apns: true,
        apns_headers: if is_background(m.event) {
            Map::<Seq<char>, Seq<char>>::empty().insert("apns-push-type"@, "background"@).insert(
                "apns-priority"@,
                "5"@,
            )
        } else {
            Map::empty()
        },
        mutable_content: if !is_background(m.event) && (m.event == event_poll_request() || m.event
            == event_message()) {
            Some(1)
        } else {
            None
        },
        content_available: if is_background(m.event) {
            Some(1)
        } else {
            None
        },
        alert: fcm_alert(m),
        custom_data: data,
    }
}

fn put_opt(d: &mut StringMap, k: &str, v: &Option<String>)
    ensures
        final(d)@ == put(old(d)@, k@, v.deep_view()),
{
    match v {
        Some(x) => d.insert(lit(k), x.clone()),
        None => {},
    }
}

fn put_num(d: &mut StringMap, k: &str, v: Option<i64>)
    ensures
        final(d)@ == put(
            old(d)@,
            k@,
            match v {
                Some(x) => Some(int_decimal(x as int)),
                None => None,
            },
        ),
{
    match v {
        Some(x) => d.insert(lit(k), i64_to_string(x)),
        None => {},
    }
}

fn clone_map(m: &StringMap) -> (r: StringMap)
    ensures
        r@ == m@,
{
    let mut entries: Vec<(String, String)> = Vec::new();
    let mut i: usize = 0;
    while i < m.entries.len()
        invariant
            i <= m.entries.len(),
            entries.deep_view() == m.entries.deep_view().take(i as int),
        decreases m.entries.len() - i,
    {
        let (k, v) = &m.entries[i];
        entries.push((k.clone(), v.clone()));
        assert(m.entries.deep_view().take(i + 1) == m.entries.deep_view().take(i as int).push(
            m.entries.deep_view()[i as int],
        ));
        i = i + 1;
    }
    assert(m.entries.deep_view().take(m.entries.len() as int) == m.entries.deep_view());
    StringMap { entries }
}

fn base_data_map(m: &Message) -> (d: StringMap)
    ensures
        d@ == base_data(m@),
{
    let mut d = StringMap::new();
    d.insert(lit("id"), clone_string(&m.id));
    d.insert(lit("time"), i64_to_string(m.time));
    d.insert(lit("event"), clone_string(&m.event));
    d.insert(lit("topic"), clone_string(&m.topic));
    d
}

fn message_data_map(m: &Message, actions_json: Option<String>) -> (d: StringMap)
    ensures
        d@ == message_data(m@, actions_json.deep_view()),
{
    let mut d = base_data_map(m);
    put_opt(&mut d, "sequence_id", &m.sequence_id);
    put_num(&mut d, "priority", match m.priority {
        Some(p) => Some(p as i64),
        None => None,
    });
    match &m.tags {
        Some(t) => {
            assert(t@.map_values(|x: String| x@) =~= t.deep_view());
            d.insert(lit("tags"), join_strings(t, ','));
        },
        None => {},
    }
    put_opt(&mut d, "click", &m.click);
    put_opt(&mut d, "icon", &m.icon);
    put_opt(&mut d, "title", &m.title);
    put_opt(&mut d, "message", &m.message);
    put_opt(&mut d, "content_type", &m.content_type);
    put_opt(&mut d, "encoding", &m.encoding);
    put_opt(&mut d, "actions", &actions_json);
    match &m.attachment {
        Some(a) => {
            d.insert(lit("attachment_name"), clone_string(&a.name));
            put_opt(&mut d, "attachment_type", &a.type_);
            put_num(&mut d, "attachment_size", a.size);
            put_num(&mut d, "attachment_expires", a.expires);
            d.insert(lit("attachment_url"), clone_string(&a.url));
        },
        None => {},
    }
    d
}

/// Builds the FCM request for a message. `actions_json` is the JSON text of
/// the message's actions, present exactly when the message has actions.
pub fn to_fcm_message(m: &Message, actions_json: Option<String>) -> (r: FcmMessage)
    ensures
        r@ == fcm_of(m@, actions_json.deep_view()),
{
    let ev = m.event.as_str();
    let keepalive_or_open = str_eq(ev, "keepalive") || str_eq(ev, "open");
    let poll = str_eq(ev, "poll_request");
    let delete_or_clear = str_eq(ev, "message_delete") || str_eq(ev, "message_clear");
    let message = str_eq(ev, "message");
    let background = keepalive_or_open || delete_or_clear;
    let data = if keepalive_or_open {
        base_data_map(m)
    } else if poll {
        let mut d = base_data_map(m);
        d.insert(lit("message"), lit("New message"));
        put_opt(&mut d, "poll_id", &m.poll_id);
        d
    } else if delete_or_clear {
        let mut d = base_data_map(m);
        put_opt(&mut d, "sequence_id", &m.sequence_id);
        d
    } else if message {
        message_data_map(m, actions_json)
    } else {
        base_data_map(m)
    };
    let mut headers = StringMap::new();
    if background {
        headers.insert(lit("apns-push-type"), lit("background"));
        headers.insert(lit("apns-priority"), lit("5"));
    }
    let alert = if background {
        None
    } else if poll {
        Some(FcmApsAlert { title: clone_opt_string(&m.title), body: lit("New message") })
    } else if message {
        Some(
            FcmApsAlert {
                title: clone_opt_string(&m.title),
                body: match &m.message {
                    Some(t) => clone_string(t),
                    None => lit("New message"),
                },
            },
        )
    } else {
        None
    };
    let android = if (match m.priority {
        Some(p) => p,
        None => 3,
    }) >= 4 {
        Some(FcmAndroidConfig { priority: lit("high") })
    } else {
        None
    };
    let custom = clone_map(&data);
    FcmMessage {
        message: FcmMessagePayload {
            topic: clone_string(&m.topic),
            data,
            android,
            apns: Some(
                FcmApnsConfig {
                    headers,
                    payload: FcmApnsPayload {
                        aps: FcmAps {
                            mutable_content: if !background && (poll || message) {
                                Some(1)
                            } else {
                                None
                            },
                            content_available: if background {
                                Some(1)
                            } else {
                                None
                            },
                            alert,
                        },
                        custom_data: custom,
                    },
                },
            ),
        },
    }
}

/// Whether `d` carries the message's id, time, event and topic.
pub open spec fn carries_base(d: Map<Seq<char>, Seq<char>>, m: MessageView) -> bool {
    &&& d.contains_key("id"@) && d["id"@] == m.id
    &&& d.contains_key("time"@) && d["time"@] == int_decimal(m.time as int)
    &&& d.contains_key("event"@) && d["event"@] == m.event
    &&& d.contains_key("topic"@) && d["topic"@] == m.topic
}

/// A key other than the four the base data holds.
pub open spec fn other_key(k: Seq<char>) -> bool {
    k != "id"@ && k != "time"@ && k != "event"@ && k != "topic"@
}

proof fn lemma_put_keeps_base(d: Map<Seq<char>, Seq<char>>, m: MessageView, k: Seq<char>, v: Option<Seq<char>>)
    requires
        carries_base(d, m),
        other_key(k),
    ensures
        carries_base(put(d, k, v), m),
        carries_base(d.insert(k, v.unwrap_or(Seq::empty())), m),
{
}

proof fn lemma_other_keys()
    ensures
        other_key("sequence_id"@),
        other_key("priority"@),
        other_key("tags"@),
        other_key("click"@),
        other_key("icon"@),
        other_key("title"@),
        other_key("message"@),
        other_key("content_type"@),
        other_key("encoding"@),
        other_key("actions"@),
        other_key("attachment_name"@),
        other_key("attachment_type"@),
        other_key("attachment_size"@),
        other_key("attachment_expires"@),
        other_key("attachment_url"@),
        other_key("poll_id"@),
{
    reveal_strlit("sequence_id");
    reveal_strlit("priority");
    reveal_strlit("tags");
    reveal_strlit("click");
    reveal_strlit("icon");
    reveal_strlit("title");
    reveal_strlit("message");
    reveal_strlit("content_type");
    reveal_strlit("encoding");
    reveal_strlit("actions");
    reveal_strlit("attachment_name");
    reveal_strlit("attachment_type");
    reveal_strlit("attachment_size");
    reveal_strlit("attachment_expires");
    reveal_strlit("attachment_url");
    reveal_strlit("poll_id");
    reveal_strlit("id");
    reveal_strlit("time");
    reveal_strlit("event");
    reveal_strlit("topic");
    assert("sequence_id"@.len() == 11);
    assert("priority"@.len() == 8);
    assert("tags"@.len() == 4);
    assert("click"@.len() == 5);
    assert("icon"@.len() == 4);
    assert("title"@.len() == 5);
    assert("message"@.len() == 7);
    assert("content_type"@.len() == 12);
    assert("encoding"@.len() == 8);
    assert("actions"@.len() == 7);
    assert("attachment_name"@.len() == 15);
    assert("attachment_type"@.len() == 15);
    assert("attachment_size"@.len() == 15);
    assert("attachment_expires"@.len() == 18);
    assert("attachment_url"@.len() == 14);
    assert("poll_id"@.len() == 7);
    assert("id"@.len() == 2);
    assert("time"@.len() == 4);
    assert("event"@.len() == 5);
    assert("topic"@.len() == 5);
    assert("tags"@[1] != "time"@[1]);
    assert("click"@[0] != "event"@[0] && "click"@[0] != "topic"@[0]);
    assert("icon"@[0] != "time"@[0]);
    assert("title"@[1] != "topic"@[1] && "title"@[0] != "event"@[0]);
}

/// Every FCM request for a message goes to the message's topic, carries its
/// id, time, event and topic in its data, repeats the data as the APNs
/// payload, and asks Android for high priority exactly for priority 4 and
/// above (3 when none is set).
pub proof fn lemma_fcm_carries_the_message(m: MessageView, actions_json: Option<Seq<char>>)
    ensures
        fcm_of(m, actions_json).topic == m.topic,
        carries_base(fcm_of(m, actions_json).data, m),
        fcm_of(m, actions_json).has_apns,
        fcm_of(m, actions_json).custom_data == fcm_of(m, actions_json).data,
        fcm_of(m, actions_json).android_priority == (if (match m.priority {
            Some(p) => p,
            None => 3,
        }) >= 4 {
            Some("high"@)
        } else {
            None
        }),
{
    lemma_other_keys();
    reveal_strlit("id");
    reveal_strlit("time");
    reveal_strlit("event");
    reveal_strlit("topic");
    assert("id"@.len() == 2 && "time"@.len() == 4 && "event"@.len() == 5 && "topic"@.len() == 5);
    assert("event"@[0] != "topic"@[0]);
    let b = base_data(m);
    assert(carries_base(b, m));
    lemma_put_keeps_base(b, m, "message"@, Some("New message"@));
    let b2 = b.insert("message"@, "New message"@);
    assert(b2 == b.insert("message"@, Some("New message"@).unwrap_or(Seq::empty())));
    lemma_put_keeps_base(b2, m, "poll_id"@, m.poll_id);
    lemma_put_keeps_base(b, m, "sequence_id"@, m.sequence_id);
    lemma_message_data_keeps_base(m, actions_json);
}

proof fn lemma_message_data_keeps_base(m: MessageView, actions_json: Option<Seq<char>>)
    ensures
        carries_base(message_data(m, actions_json), m),
{
    lemma_other_keys();
    reveal_strlit("id");
    reveal_strlit("time");
    reveal_strlit("event");
    reveal_strlit("topic");
    assert("id"@.len() == 2 && "time"@.len() == 4 && "event"@.len() == 5 && "topic"@.len() == 5);
    assert("event"@[0] != "topic"@[0]);
    let d0 = base_data(m);
    assert(carries_base(d0, m));
    let d1 = put(d0, "sequence_id"@, m.sequence_id);
    lemma_put_keeps_base(d0, m, "sequence_id"@, m.sequence_id);
    let pr = match m.priority {
        Some(p) => Some(int_decimal(p as int)),
        None => None,
    };
    let d2 = put(d1, "priority"@, pr);
    lemma_put_keeps_base(d1, m, "priority"@, pr);
    let tg = match m.tags {
        Some(t) => Some(join(t, ',')),
        None => None,
    };
    let d3 = put(d2, "tags"@, tg);
    lemma_put_keeps_base(d2, m, "tags"@, tg);
    let d4 = put(d3, "click"@, m.click);
    lemma_put_keeps_base(d3, m, "click"@, m.click);
    let d5 = put(d4, "icon"@, m.icon);
    lemma_put_keeps_base(d4, m, "icon"@, m.icon);
    let d6 = put(d5, "title"@, m.title);
    lemma_put_keeps_base(d5, m, "title"@, m.title);
    let d7 = put(d6, "message"@, m.message);
    lemma_put_keeps_base(d6, m, "message"@, m.message);
    let d8 = put(d7, "content_type"@, m.content_type);
    lemma_put_keeps_base(d7, m, "content_type"@, m.content_type);
    let d9 = put(d8, "encoding"@, m.encoding);
    lemma_put_keeps_base(d8, m, "encoding"@, m.encoding);
    let d10 = put(d9, "actions"@, actions_json);
    lemma_put_keeps_base(d9, m, "actions"@, actions_json);
    match m.attachment {
        Some(a) => {
            let e1 = d10.insert("attachment_name"@, a.name);
            lemma_put_keeps_base(d10, m, "attachment_name"@, Some(a.name));
            assert(e1 == d10.insert("attachment_name"@, Some(a.name).unwrap_or(Seq::empty())));
            let e2 = put(e1, "attachment_type"@, a.type_);
            lemma_put_keeps_base(e1, m, "attachment_type"@, a.type_);
            let sz = match a.size {
                Some(x) => Some(int_decimal(x as int)),
                None => None,
            };
            let e3 = put(e2, "attachment_size"@, sz);
            lemma_put_keeps_base(e2, m, "attachment_size"@, sz);
            let ex = match a.expires {
                Some(x) => Some(int_decimal(x as int)),
                None => None,
            };
            let e4 = put(e3, "attachment_expires"@, ex);
            lemma_put_keeps_base(e3, m, "attachment_expires"@, ex);
            lemma_put_keeps_base(e4, m, "attachment_url"@, Some(a.url));
            assert(e4.insert("attachment_url"@, a.url) == e4.insert(
                "attachment_url"@,
                Some(a.url).unwrap_or(Seq::empty()),
            ));
        },
        None => {},
    }
}

proof fn lemma_data_keys_distinct()
    ensures
        "id"@ != "time"@,
        "id"@ != "event"@,
        "id"@ != "topic"@,
        "id"@ != "sequence_id"@,
        "id"@ != "priority"@,
        "id"@ != "tags"@,
        "id"@ != "click"@,
        "id"@ != "icon"@,
        "id"@ != "title"@,
        "id"@ != "message"@,
        "id"@ != "content_type"@,
        "id"@ != "encoding"@,
        "id"@ != "actions"@,
        "id"@ != "attachment_name"@,
        "id"@ != "attachment_type"@,
        "id"@ != "attachment_size"@,
        "id"@ != "attachment_expires"@,
        "id"@ != "attachment_url"@,
        "time"@ != "event"@,
        "time"@ != "topic"@,
        "time"@ != "sequence_id"@,
        "time"@ != "priority"@,
        "time"@ != "tags"@,
        "time"@ != "click"@,
        "time"@ != "icon"@,
        "time"@ != "title"@,
        "time"@ != "message"@,
        "time"@ != "content_type"@,
        "time"@ != "encoding"@,
        "time"@ != "actions"@,
        "time"@ != "attachment_name"@,
        "time"@ != "attachment_type"@,
        "time"@ != "attachment_size"@,
        "time"@ != "attachment_expires"@,
        "time"@ != "attachment_url"@,
        "event"@ != "topic"@,
        "event"@ != "sequence_id"@,
        "event"@ != "priority"@,
        "event"@ != "tags"@,
        "event"@ != "click"@,
        "event"@ != "icon"@,
        "event"@ != "title"@,
        "event"@ != "message"@,
        "event"@ != "content_type"@,
        "event"@ != "encoding"@,
        "event"@ != "actions"@,
        "event"@ != "attachment_name"@,
        "event"@ != "attachment_type"@,
        "event"@ != "attachment_size"@,
        "event"@ != "attachment_expires"@,
        "event"@ != "attachment_url"@,
        "topic"@ != "sequence_id"@,
        "topic"@ != "priority"@,
        "topic"@ != "tags"@,
        "topic"@ != "click"@,
        "topic"@ != "icon"@,
        "topic"@ != "title"@,
        "topic"@ != "message"@,
        "topic"@ != "content_type"@,
        "topic"@ != "encoding"@,
        "topic"@ != "actions"@,
        "topic"@ != "attachment_name"@,
        "topic"@ != "attachment_type"@,
        "topic"@ != "attachment_size"@,
        "topic"@ != "attachment_expires"@,
        "topic"@ != "attachment_url"@,
        "sequence_id"@ != "priority"@,
        "sequence_id"@ != "tags"@,
        "sequence_id"@ != "click"@,
        "sequence_id"@ != "icon"@,
        "sequence_id"@ != "title"@,
        "sequence_id"@ != "message"@,
        "sequence_id"@ != "content_type"@,
        "sequence_id"@ != "encoding"@,
        "sequence_id"@ != "actions"@,
        "sequence_id"@ != "attachment_name"@,
        "sequence_id"@ != "attachment_type"@,
        "sequence_id"@ != "attachment_size"@,
        "sequence_id"@ != "attachment_expires"@,
        "sequence_id"@ != "attachment_url"@,
        "priority"@ != "tags"@,
        "priority"@ != "click"@,
        "priority"@ != "icon"@,
        "priority"@ != "title"@,
        "priority"@ != "message"@,
        "priority"@ != "content_type"@,
        "priority"@ != "encoding"@,
        "priority"@ != "actions"@,
        "priority"@ != "attachment_name"@,
        "priority"@ != "attachment_type"@,
        "priority"@ != "attachment_size"@,
        "priority"@ != "attachment_expires"@,
        "priority"@ != "attachment_url"@,
        "tags"@ != "click"@,
        "tags"@ != "icon"@,
        "tags"@ != "title"@,
        "tags"@ != "message"@,
        "tags"@ != "content_type"@,
        "tags"@ != "encoding"@,
        "tags"@ != "actions"@,
        "tags"@ != "attachment_name"@,
        "tags"@ != "attachment_type"@,
        "tags"@ != "attachment_size"@,
        "tags"@ != "attachment_expires"@,
        "tags"@ != "attachment_url"@,
        "click"@ != "icon"@,
        "click"@ != "title"@,
        "click"@ != "message"@,
        "click"@ != "content_type"@,
        "click"@ != "encoding"@,
        "click"@ != "actions"@,
        "click"@ != "attachment_name"@,
        "click"@ != "attachment_type"@,
        "click"@ != "attachment_size"@,
        "click"@ != "attachment_expires"@,
        "click"@ != "attachment_url"@,
        "icon"@ != "title"@,
        "icon"@ != "message"@,
        "icon"@ != "content_type"@,
        "icon"@ != "encoding"@,
        "icon"@ != "actions"@,
        "icon"@ != "attachment_name"@,
        "icon"@ != "attachment_type"@,
        "icon"@ != "attachment_size"@,
        "icon"@ != "attachment_expires"@,
        "icon"@ != "attachment_url"@,
        "title"@ != "message"@,
        "title"@ != "content_type"@,
        "title"@ != "encoding"@,
        "title"@ != "actions"@,
        "title"@ != "attachment_name"@,
        "title"@ != "attachment_type"@,
        "title"@ != "attachment_size"@,
        "title"@ != "attachment_expires"@,
        "title"@ != "attachment_url"@,
        "message"@ != "content_type"@,
        "message"@ != "encoding"@,
        "message"@ != "actions"@,
        "message"@ != "attachment_name"@,
        "message"@ != "attachment_type"@,
        "message"@ != "attachment_size"@,
        "message"@ != "attachment_expires"@,
        "message"@ != "attachment_url"@,
        "content_type"@ != "encoding"@,
        "content_type"@ != "actions"@,
        "content_type"@ != "attachment_name"@,
        "content_type"@ != "attachment_type"@,
        "content_type"@ != "attachment_size"@,
        "content_type"@ != "attachment_expires"@,
        "content_type"@ != "attachment_url"@,
        "encoding"@ != "actions"@,
        "encoding"@ != "attachment_name"@,
        "encoding"@ != "attachment_type"@,
        "encoding"@ != "attachment_size"@,
        "encoding"@ != "attachment_expires"@,
        "encoding"@ != "attachment_url"@,
        "actions"@ != "attachment_name"@,
        "actions"@ != "attachment_type"@,
        "actions"@ != "attachment_size"@,
        "actions"@ != "attachment_expires"@,
        "actions"@ != "attachment_url"@,
        "attachment_name"@ != "attachment_type"@,
        "attachment_name"@ != "attachment_size"@,
        "attachment_name"@ != "attachment_expires"@,
        "attachment_name"@ != "attachment_url"@,
        "attachment_type"@ != "attachment_size"@,
        "attachment_type"@ != "attachment_expires"@,
        "attachment_type"@ != "attachment_url"@,
        "attachment_size"@ != "attachment_expires"@,
        "attachment_size"@ != "attachment_url"@,
        "attachment_expires"@ != "attachment_url"@,
        event_message() != event_open(),
        event_message() != event_keepalive(),
        event_message() != event_poll_request(),
        event_message() != event_delete(),
        event_message() != event_clear(),
{
    reveal_strlit("actions");
    reveal_strlit("attachment_expires");
    reveal_strlit("attachment_name");
    reveal_strlit("attachment_size");
    reveal_strlit("attachment_type");
    reveal_strlit("attachment_url");
    reveal_strlit("click");
    reveal_strlit("content_type");
    reveal_strlit("encoding");
    reveal_strlit("event");
    reveal_strlit("icon");
    reveal_strlit("id");
    reveal_strlit("keepalive");
    reveal_strlit("message");
    reveal_strlit("message_clear");
    reveal_strlit("message_delete");
    reveal_strlit("open");
    reveal_strlit("poll_request");
    reveal_strlit("priority");
    reveal_strlit("sequence_id");
    reveal_strlit("tags");
    reveal_strlit("time");
    reveal_strlit("title");
    reveal_strlit("topic");
    assert("actions"@.len() == 7);
    assert("attachment_expires"@.len() == 18);
    assert("attachment_name"@.len() == 15);
    assert("attachment_size"@.len() == 15);
    assert("attachment_type"@.len() == 15);
    assert("attachment_url"@.len() == 14);
    assert("click"@.len() == 5);
    assert("content_type"@.len() == 12);
    assert("encoding"@.len() == 8);
    assert("event"@.len() == 5);
    assert("icon"@.len() == 4);
    assert("id"@.len() == 2);
    assert("keepalive"@.len() == 9);
    assert("message"@.len() == 7);
    assert("message_clear"@.len() == 13);
    assert("message_delete"@.len() == 14);
    assert("open"@.len() == 4);
    assert("poll_request"@.len() == 12);
    assert("priority"@.len() == 8);
    assert("sequence_id"@.len() == 11);
    assert("tags"@.len() == 4);
    assert("time"@.len() == 4);
    assert("title"@.len() == 5);
    assert("topic"@.len() == 5);
    assert("time"@[1] != "tags"@[1]);
    assert("time"@[0] != "icon"@[0]);
    assert("event"@[0] != "topic"@[0]);
    assert("event"@[0] != "click"@[0]);
    assert("event"@[0] != "title"@[0]);
    assert("topic"@[0] != "click"@[0]);
    assert("topic"@[1] != "title"@[1]);
    assert("priority"@[0] != "encoding"@[0]);
    assert("tags"@[0] != "icon"@[0]);
    assert("click"@[0] != "title"@[0]);
    assert("message"@[0] != "actions"@[0]);
    assert("attachment_name"@[11] != "attachment_type"@[11]);
    assert("attachment_name"@[11] != "attachment_size"@[11]);
    assert("attachment_type"@[11] != "attachment_size"@[11]);
}

/// For a message event, the FCM data holds each optional field the message
/// sets under its own name (numbers in decimal, tags joined with commas, the
/// actions as their JSON text, the attachment's name and address), and holds
/// no key for a field the message leaves out.
pub proof fn lemma_fcm_message_fields(m: MessageView, actions_json: Option<Seq<char>>)
    requires
        m.event == event_message(),
    ensures
        ({
            let d = fcm_of(m, actions_json).data;
            &&& (m.click matches Some(c) ==> d.contains_key("click"@) && d["click"@] == c)
            &&& (m.click is None ==> !d.contains_key("click"@))
            &&& (m.icon matches Some(c) ==> d.contains_key("icon"@) && d["icon"@] == c)
            &&& (m.icon is None ==> !d.contains_key("icon"@))
            &&& (m.title matches Some(c) ==> d.contains_key("title"@) && d["title"@] == c)
            &&& (m.title is None ==> !d.contains_key("title"@))
            &&& (m.message matches Some(c) ==> d.contains_key("message"@) && d["message"@] == c)
            &&& (m.message is None ==> !d.contains_key("message"@))
            &&& (m.sequence_id matches Some(c) ==> d.contains_key("sequence_id"@) && d["sequence_id"@] == c)
            &&& (m.sequence_id is None ==> !d.contains_key("sequence_id"@))
            &&& (m.content_type matches Some(c) ==> d.contains_key("content_type"@) && d["content_type"@] == c)
            &&& (m.content_type is None ==> !d.contains_key("content_type"@))
            &&& (m.encoding matches Some(c) ==> d.contains_key("encoding"@) && d["encoding"@] == c)
            &&& (m.encoding is None ==> !d.contains_key("encoding"@))
            &&& (m.priority matches Some(p) ==> d.contains_key("priority"@) && d["priority"@] == int_decimal(p as int))
            &&& (m.priority is None ==> !d.contains_key("priority"@))
            &&& (m.tags matches Some(t) ==> d.contains_key("tags"@) && d["tags"@] == join(t, ','))
            &&& (m.tags is None ==> !d.contains_key("tags"@))
            &&& (actions_json matches Some(j) ==> d.contains_key("actions"@) && d["actions"@] == j)
            &&& (actions_json is None ==> !d.contains_key("actions"@))
            &&& (m.attachment matches Some(a) ==> d.contains_key("attachment_name"@) && d["attachment_name"@] == a.name
                && d.contains_key("attachment_url"@) && d["attachment_url"@] == a.url)
            &&& (m.attachment is None ==> !d.contains_key("attachment_name"@) && !d.contains_key("attachment_url"@))
        }),
{
    lemma_data_keys_distinct();
    assert(fcm_of(m, actions_json).data == message_data(m, actions_json));
}

} // verus!
