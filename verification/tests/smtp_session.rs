use ntfy::smtp::{publish_reply, SmtpEvent, SmtpSession};

fn replies(ev: &[SmtpEvent]) -> Vec<String> {
    ev.iter()
        .filter_map(|e| match e {
            SmtpEvent::Reply(r) => Some(r.clone()),
            _ => None,
        })
        .collect()
}

#[test]
fn greeting_names_the_domain() {
    let s = SmtpSession::new("ntfy.sh");
    assert_eq!(s.greeting(), "220 ntfy.sh ESMTP ntfy\r\n");
}

#[test]
fn full_email_becomes_a_message() {
    let mut s = SmtpSession::new("ntfy.sh");
    let ev = s.receive(b"helo client\r\nMAIL FROM:<a@b.c>\r\nRCPT TO:<mytopic@ntfy.sh>\r\nDATA\r\n");
    assert_eq!(
        replies(&ev),
        vec!["250 Hello\r\n", "250 OK\r\n", "250 OK\r\n", "354 End data with <CR><LF>.<CR><LF>\r\n"]
    );
    assert_eq!(ev.len(), 4);
    let ev = s.receive(b"Subject: Hi there\r\n\r\nHello body\r\n");
    assert!(ev.is_empty());
    let ev = s.receive(b".\r\n");
    assert_eq!(ev.len(), 1);
    match &ev[0] {
        SmtpEvent::Publish(m) => {
            assert_eq!(m.topic, "mytopic");
            assert_eq!(m.title.as_deref(), Some("Hi there"));
            assert!(m.message.as_deref().unwrap().contains("Hello body"));
            assert_eq!(m.event, "message");
            assert_eq!(m.id.len(), 12);
            assert_eq!(m.content_type.as_deref(), Some("text/plain"));
            assert!(m.published);
        }
        _ => panic!("expected a message"),
    }
    let ev = s.receive(b"QUIT\r\n");
    assert_eq!(replies(&ev), vec!["221 Bye\r\n"]);
    assert!(matches!(ev.last(), Some(SmtpEvent::Close)));
}

#[test]
fn email_without_subject_gets_default_title() {
    let mut s = SmtpSession::new("example.org");
    s.receive(b"RCPT TO: <alerts@example.org>\r\nDATA\r\n");
    let ev = s.receive(b"From: x@y.z\r\n\r\nbody text\r\n.\r\n");
    match &ev[0] {
        SmtpEvent::Publish(m) => {
            assert_eq!(m.topic, "alerts");
            assert_eq!(m.title.as_deref(), Some("ntfy notification"));
        }
        _ => panic!("expected a message"),
    }
}

#[test]
fn other_domain_closes_the_session() {
    let mut s = SmtpSession::new("ntfy.sh");
    let ev = s.receive(b"RCPT TO:<t@evil.example>\r\nHELO x\r\n");
    assert_eq!(replies(&ev), vec!["550 Invalid domain\r\n"]);
    assert!(matches!(ev.last(), Some(SmtpEvent::Close)));
}

#[test]
fn address_without_at_is_refused() {
    let mut s = SmtpSession::new("ntfy.sh");
    let ev = s.receive(b"RCPT TO:<nobody>\r\n");
    assert_eq!(replies(&ev), vec!["550 Invalid address\r\n"]);
}

#[test]
fn unknown_commands_and_partial_lines() {
    let mut s = SmtpSession::new("ntfy.sh");
    let ev = s.receive(b"NOOP\r\nHEL");
    assert_eq!(replies(&ev), vec!["500 Command not recognized\r\n"]);
    let ev = s.receive(b"O there\r\n");
    assert_eq!(replies(&ev), vec!["250 Hello\r\n"]);
    let ev = s.receive(&[0xff, 0xfe, b'\r', b'\n']);
    assert_eq!(replies(&ev), vec!["500 Command not recognized\r\n"]);
}

#[test]
fn reversed_brackets_drop_the_connection() {
    let mut s = SmtpSession::new("ntfy.sh");
    let ev = s.receive(b"RCPT TO:>x<\r\n");
    assert_eq!(ev.len(), 1);
    assert!(matches!(ev[0], SmtpEvent::Abort));
}

#[test]
fn closed_connection_ends_the_session() {
    let mut s = SmtpSession::new("ntfy.sh");
    let ev = s.receive(b"");
    assert_eq!(ev.len(), 1);
    assert!(matches!(ev[0], SmtpEvent::Close));
}

#[test]
fn publish_outcome_replies() {
    assert_eq!(publish_reply(true), "250 OK\r\n");
    assert_eq!(publish_reply(false), "451 Local error\r\n");
}
