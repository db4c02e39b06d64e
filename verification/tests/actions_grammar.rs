use ntfy::actions::{parse_actions, Action, ParsedActions, StringMap};

fn simple(s: &str) -> Vec<Action> {
    match parse_actions(s) {
        Ok(ParsedActions::Simple(v)) => v,
        Ok(ParsedActions::Json(_)) => panic!("unexpected JSON"),
        Err(e) => panic!("unexpected error: {}", e),
    }
}

fn get<'a>(m: &'a StringMap, k: &str) -> Option<&'a str> {
    m.entries.iter().rev().find(|(key, _)| key == k).map(|(_, v)| v.as_str())
}

#[test]
fn view_action_with_implied_keys() {
    let v = simple("view, Open portal, https://ntfy.sh");
    assert_eq!(v.len(), 1);
    assert_eq!(v[0].action, "view");
    assert_eq!(v[0].label, "Open portal");
    assert_eq!(v[0].url.as_deref(), Some("https://ntfy.sh"));
    assert!(!v[0].clear);
    assert!(v[0].method.is_none());
}

#[test]
fn two_actions_with_explicit_keys() {
    let v = simple("http, Reset, https://x.example/reset, method=post, body=abc; view, Docs, https://docs.example");
    assert_eq!(v.len(), 2);
    assert_eq!(v[0].action, "http");
    assert_eq!(v[0].url.as_deref(), Some("https://x.example/reset"));
    assert_eq!(v[0].method.as_deref(), Some("POST"));
    assert_eq!(v[0].body.as_deref(), Some("abc"));
    assert_eq!(v[1].action, "view");
    assert_eq!(v[1].label, "Docs");
}

#[test]
fn copy_action_third_term_is_value() {
    let v = simple("copy, Copy code, 1234");
    assert_eq!(v[0].value.as_deref(), Some("1234"));
    assert!(v[0].url.is_none());
}

#[test]
fn quoted_values_and_escapes() {
    let v = simple(r#"action=view, label="Say \"hi\", friend", url='https://a.example'"#);
    assert_eq!(v[0].label, "Say \"hi\", friend");
    assert_eq!(v[0].url.as_deref(), Some("https://a.example"));
}

#[test]
fn headers_extras_and_clear() {
    let v = simple("http, Call, https://h.example, headers.Authorization=Bearer x, extras.cmd=go, clear=YES");
    let h = v[0].headers.as_ref().unwrap();
    assert_eq!(get(h, "Authorization"), Some("Bearer x"));
    let x = v[0].extras.as_ref().unwrap();
    assert_eq!(get(x, "cmd"), Some("go"));
    assert!(v[0].clear);
}

#[test]
fn keys_are_case_insensitive() {
    let v = simple("ACTION=view, Label=Go, URL=https://u.example");
    assert_eq!(v[0].action, "view");
    assert_eq!(v[0].label, "Go");
    assert_eq!(v[0].url.as_deref(), Some("https://u.example"));
}

#[test]
fn unknown_key_is_refused() {
    match parse_actions("view, a, https://x.example, foo=bar") {
        Err(e) => assert_eq!(e, "Unknown key 'foo'"),
        _ => panic!("expected an error"),
    }
}

#[test]
fn unknown_term_is_refused() {
    match parse_actions("view, a, https://x.example, extra") {
        Err(e) => assert_eq!(e, "Unknown term 'extra'"),
        _ => panic!("expected an error"),
    }
    match parse_actions("custom, label, third") {
        Err(e) => assert_eq!(e, "Unknown term 'third'"),
        _ => panic!("expected an error"),
    }
}

#[test]
fn unterminated_quote_is_refused() {
    match parse_actions("view, \"abc") {
        Err(e) => assert_eq!(e, "Unexpected EOF in quoted string"),
        _ => panic!("expected an error"),
    }
}

#[test]
fn text_after_quote_is_refused() {
    match parse_actions("view, \"abc\" x") {
        Err(e) => assert_eq!(e, "Unexpected character 'x' after quoted string"),
        _ => panic!("expected an error"),
    }
}

#[test]
fn json_list_is_handed_back_trimmed() {
    match parse_actions("  [{\"action\":\"view\"}]  ") {
        Ok(ParsedActions::Json(j)) => assert_eq!(j, "[{\"action\":\"view\"}]"),
        _ => panic!("expected JSON"),
    }
}

#[test]
fn empty_input_has_no_actions() {
    assert_eq!(simple("   ").len(), 0);
}

#[test]
fn ids_are_short_decimal_numbers() {
    let v = simple("view, A, https://a.example; view, B, https://b.example");
    for a in &v {
        assert!(!a.id.is_empty() && a.id.len() <= 10);
        assert!(a.id.chars().all(|c| c.is_ascii_digit()));
    }
}

#[test]
fn string_map_later_value_wins() {
    let mut m = StringMap::new();
    m.insert("k".to_string(), "1".to_string());
    m.insert("k".to_string(), "2".to_string());
    assert_eq!(get(&m, "k"), Some("2"));
}
