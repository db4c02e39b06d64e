//! The SMTP gateway's session: what each command line is answered, which
//! recipient (topic) it sets, and how a received email becomes a message.
//! The connection's reading and writing stay with the caller, who feeds the
//! received bytes in and carries the returned events out.

use vstd::prelude::*;
use vstd::utf8::encode_utf8;
use crate::text::{lit, 
    chars_of, string_of, chars_eq, starts_with_str, slice_to_vec, find_char, first_index,
    lemma_first_index, lemma_first_index_unique, trim_chars, trim, trim_start, trim_end, is_ws,
    split_once, split_once_char, has_prefix, push_chars, push_str,
};
use crate::outside::{
    uppercase_of, to_uppercase, utf8_lossy, utf8_lossy_of, parse_email, email_parts_of, new_uuid,
    now_timestamp,
};
use crate::message::{Message, MessageView, event_message, or_empty};

verus! {

// ---------------------------------------------------------------------------
// Command lines
// ---------------------------------------------------------------------------

/// What a command line does to the session besides being answered.
#[derive(PartialEq, Eq, Structural)]
pub enum LineEffect {
    Continue,
    EnterData,
    Close,
}

pub open spec fn is_helo(u: Seq<char>) -> bool {
    has_prefix(u, "HELO"@) || has_prefix(u, "EHLO"@)
}

pub open spec fn is_mail(u: Seq<char>) -> bool {
    has_prefix(u, "MAIL FROM:"@)
}

pub open spec fn is_rcpt(u: Seq<char>) -> bool {
    has_prefix(u, "RCPT TO:"@)
}

pub open spec fn is_data(u: Seq<char>) -> bool {
    has_prefix(u, "DATA"@)
}

pub open spec fn is_quit(u: Seq<char>) -> bool {
    has_prefix(u, "QUIT"@)
}

/// Where the address of a `RCPT TO:` line starts: after the first `<`, or
/// after the first character when there is none.
pub open spec fn address_start(l: Seq<char>) -> int {
    match first_index(l, '<') {
        Some(i) => i + 1,
        None => 1,
    }
}

/// Where the address ends: at the first `>`, or at the end of the line.
pub open spec fn address_end(l: Seq<char>) -> int {
    match first_index(l, '>') {
        Some(j) => j,
        None => l.len() as int,
    }
}

/// A `RCPT TO:` line whose address can be cut out: its start is not past its
/// end, and (with no `<`) the first character takes one byte.
pub open spec fn address_cuttable(l: Seq<char>) -> bool {
    &&& address_start(l) <= address_end(l)
    &&& (first_index(l, '<') is None ==> (l[0] as u32) < 0x80)
}

/// Whether a line can be handled: only a recipient line with an address that
/// cannot be cut out cannot.
pub open spec fn line_ok(l: Seq<char>) -> bool {
    let u = uppercase_of(l);
    (!is_helo(u) && !is_mail(u) && is_rcpt(u)) ==> address_cuttable(l)
}

/// The address of a recipient line.
pub open spec fn rcpt_address(l: Seq<char>) -> Seq<char> {
    trim(l.subrange(address_start(l), address_end(l)))
}

/// The reply to a command line, the topic afterwards, and its effect.
pub open spec fn command(l: Seq<char>, domain: Seq<char>, topic: Seq<char>) -> (Seq<char>, Seq<char>, LineEffect) {
    let u = uppercase_of(l);
    if is_helo(u) {
        ("250 Hello\r\n"@, topic, LineEffect::Continue)
    } else if is_mail(u) {
        ("250 OK\r\n"@, topic, LineEffect::Continue)
    } else if is_rcpt(u) {
        match split_once(rcpt_address(l), '@') {
            Some((t, d)) => if d == domain {
                ("250 OK\r\n"@, t, LineEffect::Continue)
            } else {
                ("550 Invalid domain\r\n"@, topic, LineEffect::Close)
            },
            None => ("550 Invalid address\r\n"@, topic, LineEffect::Continue),
        }
    } else if is_data(u) {
        ("354 End data with <CR><LF>.<CR><LF>\r\n"@, topic, LineEffect::EnterData)
    } else if is_quit(u) {
        ("221 Bye\r\n"@, topic, LineEffect::Close)
    } else {
        ("500 Command not recognized\r\n"@, topic, LineEffect::Continue)
    }
}

/// A greeting line, starting (in upper case) with `HELO` or `EHLO`, can
/// always be handled, is answered `250 Hello`, keeps the session's topic and
/// lets the session go on.
pub proof fn lemma_greeting_lines(l: Seq<char>, domain: Seq<char>, topic: Seq<char>)
    requires
        has_prefix(uppercase_of(l), "HELO"@) || has_prefix(uppercase_of(l), "EHLO"@),
    ensures
        line_ok(l),
        command(l, domain, topic) == ("250 Hello\r\n"@, topic, LineEffect::Continue),
{
}

/// A recipient line `RCPT TO:<topic@domain>` for the server's domain sets
/// the session's topic: whatever stands before the `<` (with no angle
/// bracket in it) and after the `>`, for a topic with no `@` or angle bracket
/// that starts with a non-space, and a domain with no `>` that ends with one.
pub proof fn lemma_recipient_names_topic(l: Seq<char>, p: Seq<char>, t: Seq<char>, domain: Seq<char>, q: Seq<char>, topic: Seq<char>)
    requires
        l == p + seq!['<'] + t + seq!['@'] + domain + seq!['>'] + q,
        is_rcpt(uppercase_of(l)),
        !is_helo(uppercase_of(l)),
        !is_mail(uppercase_of(l)),
        forall|j: int| 0 <= j < p.len() ==> p[j] != '<' && p[j] != '>',
        forall|j: int| 0 <= j < t.len() ==> t[j] != '@' && t[j] != '>',
        forall|j: int| 0 <= j < domain.len() ==> domain[j] != '>',
        t.len() > 0,
        !is_ws(t[0]),
        domain.len() > 0,
        !is_ws(domain.last()),
    ensures
        command(l, domain, topic) == ("250 OK\r\n"@, t, LineEffect::Continue),
{
    let n = p.len() as int;
    let e = n + 1 + t.len() + 1 + domain.len();
    let a = t + seq!['@'] + domain;
    assert(l[n] == '<');
    assert forall|j: int| 0 <= j < n implies l[j] != '<' by {
        assert(l[j] == p[j]);
    }
    lemma_first_index_unique(l, '<', n);
    assert(l[e] == '>');
    assert forall|j: int| 0 <= j < e implies l[j] != '>' by {
        if j < n {
            assert(l[j] == p[j]);
        } else if j > n && j <= n + t.len() {
            assert(l[j] == t[j - n - 1]);
        } else if j > n + 1 + t.len() {
            assert(l[j] == domain[j - n - 2 - t.len()]);
        }
    }
    lemma_first_index_unique(l, '>', e);
    assert(l.subrange(n + 1, e) =~= a);
    assert(trim_start(a) == a);
    assert(a.last() == domain.last());
    assert(trim_end(a) == a);
    assert(a[t.len() as int] == '@');
    assert forall|j: int| 0 <= j < t.len() implies a[j] != '@' by {
        assert(a[j] == t[j]);
    }
    lemma_first_index_unique(a, '@', t.len() as int);
    assert(a.take(t.len() as int) =~= t);
    assert(a.skip(t.len() as int + 1) =~= domain);
}

/// The first line break (`\r\n`) at or after `i`.
pub open spec fn crlf_from(s: Seq<char>, i: int) -> Option<int>
    decreases s.len() - i,
{
    if i < 0 || i + 1 >= s.len() {
        None
    } else if s[i] == '\r' && s[i + 1] == '\n' {
        Some(i)
    } else {
        crlf_from(s, i + 1)
    }
}

pub proof fn lemma_crlf_from(s: Seq<char>, i: int)
    requires
        0 <= i,
    ensures
        crlf_from(s, i) matches Some(k) ==> i <= k && k + 1 < s.len() && s[k] == '\r' && s[k
            + 1] == '\n',
    decreases s.len() - i,
{
    if !(i + 1 >= s.len()) && !(s[i] == '\r' && s[i + 1] == '\n') {
        lemma_crlf_from(s, i + 1);
    }
}

/// What handling the complete lines of a buffer gives.
pub struct LinesOutcome {
    pub replies: Seq<Seq<char>>,
    pub topic: Seq<char>,
    pub effect: LineEffect,
    /// The buffer after the last line handled.
    pub rest: Seq<char>,
    /// A line could not be handled: the connection is to be dropped.
    pub aborted: bool,
}

/// Handles the complete lines of `buf` in order, stopping after one that
/// enters data mode or closes the session.
pub open spec fn run_lines(buf: Seq<char>, domain: Seq<char>, topic: Seq<char>) -> LinesOutcome
    decreases buf.len(),
{
    match crlf_from(buf, 0) {
        None => LinesOutcome {
            replies: Seq::empty(),
            topic,
            effect: LineEffect::Continue,
            rest: buf,
            aborted: false,
        },
        Some(i) => {
            proof {
                lemma_crlf_from(buf, 0);
            }
            let line = buf.take(i);
            let rest = buf.skip(i + 2);
            if !line_ok(line) {
                LinesOutcome {
                    replies: Seq::empty(),
                    topic,
                    effect: LineEffect::Close,
                    rest,
                    aborted: true,
                }
            } else {
                let (reply, t2, eff) = command(line, domain, topic);
                if eff == LineEffect::Continue {
                    let o = run_lines(rest, domain, t2);
                    LinesOutcome { replies: seq![reply] + o.replies, ..o }
                } else {
                    LinesOutcome { replies: seq![reply], topic: t2, effect: eff, rest, aborted: false }
                }
            }
        },
    }
}

// ---------------------------------------------------------------------------
// Emails
// ---------------------------------------------------------------------------

/// The end of an email's data: a line holding a single dot.
pub open spec fn data_terminator() -> Seq<u8> {
    seq![13u8, 10u8, 46u8, 13u8, 10u8]
}

pub open spec fn ends_with_terminator(d: Seq<u8>) -> bool {
    d.len() >= 5 && d.skip(d.len() - 5) == data_terminator()
}

/// The message an email to `topic` becomes (id and time aside): its subject
/// as title (a default when it has none), its first text part as message.
pub open spec fn email_message_fits(m: MessageView, topic: Seq<char>, subject: Option<Seq<char>>, body: Option<Seq<char>>) -> bool {
    &&& m.id.len() == 12
    &&& m.sequence_id is None
    &&& m.expires is None
    &&& m.event == event_message()
    &&& m.topic == topic
    &&& m.title == Some(
        match subject {
            Some(s) => s,
            None => "ntfy notification"@,
        },
    )
    &&& m.message == Some(or_empty(body))
    &&& m.priority is None
    &&& m.tags is None
    &&& m.click is None
    &&& m.icon is None
    &&& m.actions is None
    &&& m.attachment is None
    &&& m.poll_id is None
    &&& m.content_type == Some("text/plain"@)
    &&& m.encoding is None
    &&& m.sender is None
    &&& m.user is None
    &&& m.published
}

fn email_message(topic: String, subject: Option<String>, body: Option<String>) -> (m: Message)
    ensures
        email_message_fits(m@, topic@, subject.deep_view(), body.deep_view()),
{
    let uuid = chars_of(new_uuid().as_str());
    let id = string_of(&slice_to_vec(&uuid, 0, 12));
    let title = match subject {
        Some(s) => s,
        None => lit("ntfy notification"),
    };
    let text = match body {
        Some(b) => b,
        None => String::new(),
    };
    Message {
        id,
        sequence_id: None,
        time: now_timestamp(),
        expires: None,
        event: lit("message"),
        topic,
        title: Some(title),
        message: Some(text),
        priority: None,
        tags: None,
        click: None,
        icon: None,
        actions: None,
        attachment: None,
        poll_id: None,
        content_type: Some(lit("text/plain")),
        encoding: None,
        sender: None,
        user: None,
        published: true,
    }
}

// ---------------------------------------------------------------------------
// The session
// ---------------------------------------------------------------------------

/// What the connection is to do, in order.
pub enum SmtpEvent {
    /// Send this reply.
    Reply(String),
    /// Publish this message, then send `publish_reply` of the outcome.
    Publish(Message),
    /// End the session.
    Close,
    /// A line could not be handled: drop the connection without a reply.
    Abort,
}

pub struct SmtpSession {
    domain: Vec<char>,
    buffer: Vec<char>,
    topic_id: String,
    data_mode: bool,
    data_buffer: Vec<u8>,
}

pub struct SessionView {
    pub domain: Seq<char>,
    pub buffer: Seq<char>,
    pub topic: Seq<char>,
    pub data_mode: bool,
    pub data: Seq<u8>,
}

impl View for SmtpSession {
    type V = SessionView;

    closed spec fn view(&self) -> SessionView {
        SessionView {
            domain: self.domain@,
            buffer: self.buffer@,
            topic: self.topic_id@,
            data_mode: self.data_mode,
            data: self.data_buffer@,
        }
    }
}

/// The replies as events.
pub open spec fn reply_events_fit(ev: Seq<SmtpEvent>, replies: Seq<Seq<char>>) -> bool {
    &&& ev.len() >= replies.len()
    &&& forall|i: int|
        0 <= i < replies.len() ==> (#[trigger] ev[i] matches SmtpEvent::Reply(r) && r@
            == replies[i])
}

fn append_bytes(dst: &mut Vec<u8>, src: &[u8])
    ensures
        final(dst)@ == old(dst)@ + src@,
{
    let mut j: usize = 0;
    while j < src.len()
        invariant
            j <= src.len(),
            dst@ == old(dst)@ + src@.take(j as int),
        decreases src.len() - j,
    {
        dst.push(src[j]);
        assert(src@.take(j + 1) == src@.take(j as int).push(src@[j as int]));
        j = j + 1;
    }
    assert(src@.take(src.len() as int) == src@);
}

/// The greeting sent when a connection opens.
pub open spec fn greeting_of(domain: Seq<char>) -> Seq<char> {
    "220 "@ + domain + " ESMTP ntfy\r\n"@
}

/// The reply after publishing a received email.
pub open spec fn publish_reply_of(accepted: bool) -> Seq<char> {
    if accepted {
        "250 OK\r\n"@
    } else {
        "451 Local error\r\n"@
    }
}

pub fn publish_reply(accepted: bool) -> (r: String)
    ensures
        r@ == publish_reply_of(accepted),
{
    if accepted {
        lit("250 OK\r\n")
    } else {
        lit("451 Local error\r\n")
    }
}

impl SmtpSession {
    /// A session for a server that accepts mail for `domain`.
    pub fn new(domain: &str) -> (r: Self)
        ensures
            r@ == (SessionView {
                domain: domain@,
                buffer: Seq::empty(),
                topic: Seq::empty(),
                data_mode: false,
                data: Seq::empty(),
            }),
    {
        SmtpSession {
            domain: chars_of(domain),
            buffer: Vec::new(),
            topic_id: String::new(),
            data_mode: false,
            data_buffer: Vec::new(),
        }
    }

    pub fn greeting(&self) -> (r: String)
        ensures
            r@ == greeting_of(self@.domain),
    {
        let mut v = chars_of("220 ");
        push_chars(&mut v, &self.domain);
        push_str(&mut v, " ESMTP ntfy\r\n");
        string_of(&v)
    }

    /// Answers one command line that can be handled.
    pub fn handle_command(&mut self, line: &[char]) -> (r: (String, LineEffect))
        requires
            line_ok(line@),
        ensures
            (r.0@, final(self)@.topic, r.1) == command(line@, old(self)@.domain, old(self)@.topic),
            final(self)@ == (SessionView { topic: final(self)@.topic, ..old(self)@ }),
    {
        let ls = string_of(line);
        let upper = to_uppercase(ls.as_str());
        let u = chars_of(upper.as_str());
        if starts_with_str(&u, "HELO") || starts_with_str(&u, "EHLO") {
            (lit("250 Hello\r\n"), LineEffect::Continue)
        } else if starts_with_str(&u, "MAIL FROM:") {
            (lit("250 OK\r\n"), LineEffect::Continue)
        } else if starts_with_str(&u, "RCPT TO:") {
            proof {
                lemma_first_index(line@, '<');
                lemma_first_index(line@, '>');
            }
            let start = match find_char(line, '<') {
                Some(i) => {
                    assert(i < line.len());
                    i + 1
                },
                None => 1,
            };
            let end = match find_char(line, '>') {
                Some(j) => j,
                None => line.len(),
            };
            let raw = slice_to_vec(line, start, end);
            let email = trim_chars(&raw);
            match split_once_char(&email, '@') {
                Some((t, d)) => {
                    if chars_eq(&d, &self.domain) {
                        self.topic_id = string_of(&t);
                        (lit("250 OK\r\n"), LineEffect::Continue)
                    } else {
                        (lit("550 Invalid domain\r\n"), LineEffect::Close)
                    }
                },
                None => (lit("550 Invalid address\r\n"), LineEffect::Continue),
            }
        } else if starts_with_str(&u, "DATA") {
            (lit("354 End data with <CR><LF>.<CR><LF>\r\n"), LineEffect::EnterData)
        } else if starts_with_str(&u, "QUIT") {
            (lit("221 Bye\r\n"), LineEffect::Close)
        } else {
            (lit("500 Command not recognized\r\n"), LineEffect::Continue)
        }
    }

    /// Whether a line can be handled (see `line_ok`).
    pub fn can_handle(line: &[char]) -> (r: bool)
        ensures
            r == line_ok(line@),
    {
        let ls = string_of(line);
        let upper = to_uppercase(ls.as_str());
        let u = chars_of(upper.as_str());
        if !(starts_with_str(&u, "HELO") || starts_with_str(&u, "EHLO") || starts_with_str(
            &u,
            "MAIL FROM:",
        )) && starts_with_str(&u, "RCPT TO:") {
            proof {
                lemma_first_index(line@, '<');
                lemma_first_index(line@, '>');
            }
            let (start, has_open) = match find_char(line, '<') {
                Some(i) => {
                    assert(i < line.len());
                    (i + 1, true)
                },
                None => (1, false),
            };
            let end = match find_char(line, '>') {
                Some(j) => j,
                None => line.len(),
            };
            if start > end {
                return false;
            }
            if !has_open {
                assert(end <= line.len());
                return (line[0] as u32) < 0x80;
            }
            true
        } else {
            true
        }
    }

    /// Handles what one read from the connection gave: `chunk` (empty when
    /// the peer closed it).
    pub fn receive(&mut self, chunk: &[u8]) -> (r: Vec<SmtpEvent>)
        ensures
            final(self)@.domain == old(self)@.domain,
            chunk@.len() == 0 ==> r@.len() == 1 && r@[0] is Close && final(self)@ == old(self)@,
            chunk@.len() > 0 && !old(self)@.data_mode ==> {
                let o = run_lines(
                    old(self)@.buffer + utf8_lossy_of(chunk@),
                    old(self)@.domain,
                    old(self)@.topic,
                );
                &&& reply_events_fit(r@, o.replies)
                &&& final(self)@.topic == o.topic
                &&& if o.aborted {
                    r@.len() == o.replies.len() + 1 && r@.last() is Abort
                } else if o.effect == LineEffect::Close {
                    r@.len() == o.replies.len() + 1 && r@.last() is Close
                } else if o.effect == LineEffect::EnterData {
                    &&& r@.len() == o.replies.len()
                    &&& final(self)@.data_mode
                    &&& final(self)@.buffer == Seq::<char>::empty()
                    &&& final(self)@.data == old(self)@.data + encode_utf8(o.rest)
                } else {
                    &&& r@.len() == o.replies.len()
                    &&& !final(self)@.data_mode
                    &&& final(self)@.buffer == o.rest
                    &&& final(self)@.data == old(self)@.data
                }
            },
            chunk@.len() > 0 && old(self)@.data_mode ==> {
                let d = old(self)@.data + chunk@;
                if ends_with_terminator(d) {
                    let email = d.take(d.len() - 5);
                    &&& !final(self)@.data_mode
                    &&& final(self)@.data == Seq::<u8>::empty()
                    &&& final(self)@.buffer == old(self)@.buffer
                    &&& final(self)@.topic == old(self)@.topic
                    &&& r@.len() == 1
                    &&& match email_parts_of(email) {
                        Some((subject, body)) => r@[0] matches SmtpEvent::Publish(m)
                            && email_message_fits(m@, old(self)@.topic, subject, body),
                        None => r@[0] matches SmtpEvent::Reply(t) && t@
                            == "550 Invalid content\r\n"@,
                    }
                } else {
                    &&& r@.len() == 0
                    &&& final(self)@ == (SessionView { data: d, ..old(self)@ })
                }
            },
    {
        let mut events: Vec<SmtpEvent> = Vec::new();
        if chunk.len() == 0 {
            events.push(SmtpEvent::Close);
            return events;
        }
        if !self.data_mode {
            let text = utf8_lossy(chunk);
            let tv = chars_of(text.as_str());
            push_chars(&mut self.buffer, &tv);
            self.run_buffer(&mut events);
            events
        } else {
            self.receive_data(chunk)
        }
    }

    fn receive_data(&mut self, chunk: &[u8]) -> (r: Vec<SmtpEvent>)
        requires
            old(self)@.data_mode,
        ensures
            final(self)@.domain == old(self)@.domain,
            ({
                let d = old(self)@.data + chunk@;
                if ends_with_terminator(d) {
                    let email = d.take(d.len() - 5);
                    &&& !final(self)@.data_mode
                    &&& final(self)@.data == Seq::<u8>::empty()
                    &&& final(self)@.buffer == old(self)@.buffer
                    &&& final(self)@.topic == old(self)@.topic
                    &&& r@.len() == 1
                    &&& match email_parts_of(email) {
                        Some((subject, body)) => r@[0] matches SmtpEvent::Publish(m)
                            && email_message_fits(m@, old(self)@.topic, subject, body),
                        None => r@[0] matches SmtpEvent::Reply(t) && t@
                            == "550 Invalid content\r\n"@,
                    }
                } else {
                    &&& r@.len() == 0
                    &&& final(self)@ == (SessionView { data: d, ..old(self)@ })
                }
            }),
    {
        let mut events: Vec<SmtpEvent> = Vec::new();
            let mut i: usize = 0;
        let ghost d0 = self.data_buffer@;
        while i < chunk.len()
            invariant
                i <= chunk.len(),
                self.data_buffer@ == d0 + chunk@.take(i as int),
                self.domain == old(self).domain,
                self.buffer == old(self).buffer,
                self.topic_id == old(self).topic_id,
                self.data_mode == old(self).data_mode,
            decreases chunk.len() - i,
        {
            self.data_buffer.push(chunk[i]);
            assert(chunk@.take(i + 1) == chunk@.take(i as int).push(chunk@[i as int]));
            i = i + 1;
        }
        assert(chunk@.take(chunk.len() as int) == chunk@);
        let n = self.data_buffer.len();
        if n >= 5 && self.data_buffer[n - 5] == 13 && self.data_buffer[n - 4] == 10
            && self.data_buffer[n - 3] == 46 && self.data_buffer[n - 2] == 13
            && self.data_buffer[n - 1] == 10 {
            let ghost dd = self.data_buffer@;
            assert(dd.skip(dd.len() - 5) =~= data_terminator());
            let mut email: Vec<u8> = Vec::new();
            let mut k: usize = 0;
            while k < n - 5
                invariant
                    n == self.data_buffer.len(),
                    n >= 5,
                    k <= n - 5,
                    email@ == self.data_buffer@.take(k as int),
                decreases n - 5 - k,
            {
                email.push(self.data_buffer[k]);
                assert(self.data_buffer@.take(k + 1) == self.data_buffer@.take(k as int).push(
                    self.data_buffer@[k as int],
                ));
                k = k + 1;
            }
            match parse_email(&email) {
                Some((subject, body)) => {
                    let topic = self.topic_id.clone();
                    events.push(SmtpEvent::Publish(email_message(topic, subject, body)));
                },
                None => {
                    events.push(SmtpEvent::Reply(lit("550 Invalid content\r\n")));
                },
            }
            self.data_buffer = Vec::new();
            self.data_mode = false;
        } else {
            proof {
                let dd = self.data_buffer@;
                if dd.len() >= 5 && dd.skip(dd.len() - 5) == data_terminator() {
                    assert(dd[dd.len() - 5] == dd.skip(dd.len() - 5)[0]);
                    assert(dd[dd.len() - 4] == dd.skip(dd.len() - 5)[1]);
                    assert(dd[dd.len() - 3] == dd.skip(dd.len() - 5)[2]);
                    assert(dd[dd.len() - 2] == dd.skip(dd.len() - 5)[3]);
                    assert(dd[dd.len() - 1] == dd.skip(dd.len() - 5)[4]);
                }
            }
        }
        events
    }

    /// Handles the complete lines in the buffer.
    #[verifier::loop_isolation(false)]
    fn run_buffer(&mut self, events: &mut Vec<SmtpEvent>)
        requires
            !old(self)@.data_mode,
            old(events)@.len() == 0,
        ensures
            final(self)@.domain == old(self)@.domain,
            ({
                let o = run_lines(old(self)@.buffer, old(self)@.domain, old(self)@.topic);
                &&& reply_events_fit(final(events)@, o.replies)
                &&& final(self)@.topic == o.topic
                &&& if o.aborted {
                    final(events)@.len() == o.replies.len() + 1 && final(events)@.last() is Abort
                } else if o.effect == LineEffect::Close {
                    final(events)@.len() == o.replies.len() + 1 && final(events)@.last() is Close
                } else if o.effect == LineEffect::EnterData {
                    &&& final(events)@.len() == o.replies.len()
                    &&& final(self)@.data_mode
                    &&& final(self)@.buffer == Seq::<char>::empty()
                    &&& final(self)@.data == old(self)@.data + encode_utf8(o.rest)
                } else {
                    &&& final(events)@.len() == o.replies.len()
                    &&& !final(self)@.data_mode
                    &&& final(self)@.buffer == o.rest
                    &&& final(self)@.data == old(self)@.data
                }
            }),
    {
        let ghost goal = run_lines(old(self)@.buffer, old(self)@.domain, old(self)@.topic);
        let ghost done: Seq<Seq<char>> = Seq::empty();
        loop
            invariant
                self.domain@ == old(self).domain@,
                !self.data_mode,
                self.data_buffer@ == old(self).data_buffer@,
                goal == run_lines(old(self)@.buffer, old(self)@.domain, old(self)@.topic),
                ({
                    let o = run_lines(self.buffer@, self.domain@, self.topic_id@);
                    &&& goal.replies == done + o.replies
                    &&& goal.topic == o.topic
                    &&& goal.effect == o.effect
                    &&& goal.rest == o.rest
                    &&& goal.aborted == o.aborted
                }),
                reply_events_fit(events@, done),
                events@.len() == done.len(),
            decreases self.buffer@.len(),
        {
            let ghost buf = self.buffer@;
            let ghost o = run_lines(buf, self.domain@, self.topic_id@);
            let mut k: usize = 0;
            let mut found = false;
            while !found && k < self.buffer.len() && k + 1 < self.buffer.len()
                invariant
                    buf == self.buffer@,
                    k <= self.buffer.len(),
                    !found ==> crlf_from(buf, 0) == crlf_from(buf, k as int),
                    found ==> crlf_from(buf, 0) == Some(k as int),
                decreases 2 * (self.buffer.len() - k) + (if found { 0int } else { 1int }),
            {
                if self.buffer[k] == '\r' && self.buffer[k + 1] == '\n' {
                    found = true;
                } else {
                    k = k + 1;
                }
            }
            if !found {
                assert(crlf_from(buf, k as int) is None);
                return;
            }
            proof {
                lemma_crlf_from(buf, 0);
            }
            let line = slice_to_vec(&self.buffer, 0, k);
            let rest = slice_to_vec(&self.buffer, k + 2, self.buffer.len());
            assert(line@ == buf.take(k as int));
            assert(rest@ == buf.skip(k + 2));
            if !Self::can_handle(&line) {
                self.buffer = rest;
                events.push(SmtpEvent::Abort);
                proof {
                    assert forall|i: int| 0 <= i < done.len() implies (#[trigger] events@[i] matches SmtpEvent::Reply(
                        r,
                    ) && r@ == done[i]) by {
                        assert(events@[i] == events@.drop_last()[i]);
                    }
                }
                return;
            }
            let ghost topic_before = self.topic_id@;
            let (reply, effect) = self.handle_command(&line);
            let ghost prev_events = events@;
            events.push(SmtpEvent::Reply(reply));
            proof {
                assert forall|i: int| 0 <= i < done.len() + 1 implies (#[trigger] events@[i] matches SmtpEvent::Reply(
                    r,
                ) && r@ == done.push(reply@)[i]) by {
                    if i < done.len() {
                        assert(events@[i] == prev_events[i]);
                    }
                }
                done = done.push(reply@);
            }
            match effect {
                LineEffect::Continue => {
                    self.buffer = rest;
                    proof {
                        let o2 = run_lines(self.buffer@, self.domain@, self.topic_id@);
                        assert(o.replies == seq![reply@] + o2.replies);
                        assert(goal.replies == done.drop_last() + (seq![reply@] + o2.replies));
                        assert(done.drop_last() + (seq![reply@] + o2.replies) == done
                            + o2.replies);
                    }
                },
                LineEffect::EnterData => {
                    self.data_mode = true;
                    let bytes = string_of(&rest).as_str().as_bytes_vec();
                    append_bytes(&mut self.data_buffer, &bytes);
                    self.buffer = Vec::new();
                    return;
                },
                LineEffect::Close => {
                    self.buffer = rest;
                    events.push(SmtpEvent::Close);
                    proof {
                        assert forall|i: int| 0 <= i < done.len() implies (#[trigger] events@[i] matches SmtpEvent::Reply(
                            r,
                        ) && r@ == done[i]) by {
                            assert(events@[i] == events@.drop_last()[i]);
                        }
                    }
                    return;
                },
            }
        }
    }
}

} // verus!
