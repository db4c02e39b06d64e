use ntfy::auth::{
    anonymous_user, authenticate, authenticate_token, authorize, new_password_hash, new_user_row,
    choose_user, login_attempts, parse_authorization, parse_default_permission, users_from_rows, AuthError, Credentials,
    Permission, Role, Tier, UserRow,
};

fn row(hash: &str, role: &str, tier: &str) -> UserRow {
    UserRow {
        id: "u_1".to_string(),
        name: "phil".to_string(),
        hash: hash.to_string(),
        role: role.to_string(),
        tier: tier.to_string(),
    }
}

#[test]
fn permission_parts() {
    assert_eq!(Permission::new(true, true), Permission::ReadWrite);
    assert_eq!(Permission::new(true, false), Permission::Read);
    assert_eq!(Permission::new(false, true), Permission::Write);
    assert_eq!(Permission::new(false, false), Permission::DenyAll);
    assert!(Permission::ReadWrite.is_read() && Permission::ReadWrite.is_write());
    assert!(Permission::Read.is_read() && !Permission::Read.is_write());
    assert!(!Permission::Write.is_read() && Permission::Write.is_write());
    assert!(!Permission::DenyAll.is_read() && !Permission::DenyAll.is_write());
}

#[test]
fn default_access_settings() {
    assert_eq!(parse_default_permission("read-write"), Permission::ReadWrite);
    assert_eq!(parse_default_permission("rw"), Permission::ReadWrite);
    assert_eq!(parse_default_permission("read-only"), Permission::Read);
    assert_eq!(parse_default_permission("ro"), Permission::Read);
    assert_eq!(parse_default_permission("write"), Permission::Write);
    assert_eq!(parse_default_permission("deny-all"), Permission::DenyAll);
    assert_eq!(parse_default_permission("anything"), Permission::DenyAll);
}

#[test]
fn access_list_entry_decides() {
    assert!(authorize(Some((1, 0)), Permission::Read, "deny-all"));
    assert!(!authorize(Some((1, 0)), Permission::Write, "read-write"));
    assert!(!authorize(Some((1, 0)), Permission::ReadWrite, "read-write"));
    assert!(authorize(Some((1, 1)), Permission::ReadWrite, "deny-all"));
    assert!(!authorize(Some((0, 0)), Permission::Read, "read-write"));
}

#[test]
fn default_access_applies_without_entry() {
    assert!(authorize(None, Permission::Read, "read-write"));
    assert!(authorize(None, Permission::Write, "read-write"));
    assert!(authorize(None, Permission::Read, "read-only"));
    assert!(!authorize(None, Permission::Write, "read-only"));
    assert!(!authorize(None, Permission::Read, "deny-all"));
    assert!(!authorize(None, Permission::DenyAll, "read-write"));
}

#[test]
fn read_write_needs_both() {
    for entry in [None, Some((0, 0)), Some((1, 0)), Some((0, 1)), Some((1, 1))] {
        for d in ["read-write", "read-only", "write-only", "deny-all"] {
            assert_eq!(
                authorize(entry, Permission::ReadWrite, d),
                authorize(entry, Permission::Read, d) && authorize(entry, Permission::Write, d)
            );
        }
    }
}

#[test]
fn role_and_tier_names() {
    assert_eq!(Role::from("admin".to_string()), Role::Admin);
    assert_eq!(Role::from("user".to_string()), Role::User);
    assert_eq!(Role::from("root".to_string()), Role::Anonymous);
    assert_eq!(Tier::from("pro".to_string()), Tier::Pro);
    assert_eq!(Tier::from("business".to_string()), Tier::Business);
    assert_eq!(Tier::from("gold".to_string()), Tier::Free);
    for r in [Role::Admin, Role::User, Role::Anonymous] {
        assert_eq!(Role::from(r.name()), r);
    }
    for t in [Tier::Free, Tier::Pro, Tier::Business] {
        assert_eq!(Tier::from(t.name()), t);
    }
    assert_eq!(Tier::default(), Tier::Free);
    assert_eq!(String::from(Role::Admin), "admin");
    assert_eq!(String::from(Role::Anonymous), "anonymous");
    assert_eq!(String::from(Tier::Business), "business");
    for r in [Role::Admin, Role::User, Role::Anonymous] {
        assert_eq!(Role::from(String::from(r)), r);
    }
}

#[test]
fn tier_limits() {
    let f = Tier::Free.info();
    assert_eq!(f.message_limit, 256);
    assert_eq!(f.attachment_total_size_limit, 100 * 1024 * 1024);
    assert_eq!(f.attachment_expiry_duration, 3 * 3600);
    let p = Tier::Pro.info();
    assert_eq!(p.email_limit, 500);
    assert_eq!(p.attachment_bandwidth_limit, 10 * 1024 * 1024 * 1024);
    let b = Tier::Business.info();
    assert_eq!(b.message_expiry_duration, 30 * 24 * 3600);
    assert_eq!(b.reservation_limit, 100);
}

#[test]
fn authorization_header_forms() {
    match parse_authorization("Basic dXNlcjpwYTpzcw==") {
        Credentials::Basic { username, password } => {
            assert_eq!(username, "user");
            assert_eq!(password, "pa:ss");
        }
        _ => panic!("expected basic credentials"),
    }
    match parse_authorization("Bearer tk_abc") {
        Credentials::Bearer(t) => assert_eq!(t, "tk_abc"),
        _ => panic!("expected a token"),
    }
    assert!(matches!(parse_authorization("Basic !!!"), Credentials::Missing));
    assert!(matches!(parse_authorization("Basic bm9jb2xvbg=="), Credentials::Missing));
    assert!(matches!(parse_authorization("Digest x"), Credentials::Missing));
}

#[test]
fn stored_password_logs_in() {
    let new_row = new_user_row("phil", "secret", Role::Admin).unwrap();
    assert_eq!(new_row.name, "phil");
    assert_eq!(new_row.role, "admin");
    assert_eq!(new_row.tier, "free");
    assert_eq!(new_row.id.len(), 36);
    let hash = new_row.hash.clone();
    let user = authenticate(Some(new_row), "secret").unwrap().unwrap();
    assert_eq!(user.name, "phil");
    assert_eq!(user.role, Role::Admin);
    assert_eq!(user.tier, Tier::Free);
    assert!(authenticate(Some(row(&hash, "admin", "free")), "wrong").unwrap().is_none());
    assert!(authenticate(None, "secret").unwrap().is_none());
}

#[test]
fn unreadable_hash_is_an_error() {
    assert_eq!(authenticate(Some(row("not-a-hash", "user", "free")), "x").err(), Some(AuthError::PasswordHash));
}

#[test]
fn changed_password_hash_verifies() {
    let h = new_password_hash("n3w").unwrap();
    assert!(authenticate(Some(row(&h, "user", "pro")), "n3w").unwrap().is_some());
}

#[test]
fn token_login_and_rows() {
    let u = authenticate_token(Some(row("h", "user", "business"))).unwrap();
    assert_eq!(u.role, Role::User);
    assert_eq!(u.tier, Tier::Business);
    assert!(authenticate_token(None).is_none());
    let users = users_from_rows(vec![row("a", "admin", "pro"), row("b", "x", "y")]);
    assert_eq!(users.len(), 2);
    assert_eq!(users[0].role, Role::Admin);
    assert_eq!(users[1].role, Role::Anonymous);
    assert_eq!(users[1].tier, Tier::Free);
}

#[test]
fn anonymous_user_fields() {
    let a = anonymous_user();
    assert_eq!(a.id, "u_everyone");
    assert_eq!(a.name, "*");
    assert_eq!(a.role, Role::Anonymous);
    assert_eq!(a.tier, Tier::Free);
}

#[test]
fn logins_are_tried_header_first() {
    // "phil:pw" in base64.
    let a = login_attempts(Some("Basic cGhpbDpwdw=="), Some("tk_query"));
    assert_eq!(a.len(), 2);
    match &a[0] {
        Credentials::Basic { username, password } => {
            assert_eq!(username, "phil");
            assert_eq!(password, "pw");
        }
        _ => panic!("expected a password login"),
    }
    assert!(matches!(&a[1], Credentials::Bearer(t) if t == "tk_query"));
    let a = login_attempts(Some("Digest abc"), None);
    assert!(a.is_empty());
    let a = login_attempts(None, Some("tk"));
    assert!(matches!(&a[..], [Credentials::Bearer(t)] if t == "tk"));
    let a = login_attempts(Some("Bearer tk_header"), None);
    assert!(matches!(&a[..], [Credentials::Bearer(t)] if t == "tk_header"));
}

#[test]
fn the_first_login_that_finds_an_account_decides() {
    let u = |id: &str| ntfy::auth::User {
        id: id.to_string(),
        name: id.to_string(),
        hash: String::new(),
        role: Role::User,
        tier: Tier::Free,
    };
    assert_eq!(choose_user(vec![None, Some(u("b")), Some(u("c"))]).id, "b");
    assert_eq!(choose_user(vec![Some(u("a")), Some(u("b"))]).id, "a");
    let anon = choose_user(vec![None, None]);
    assert_eq!(anon.id, "u_everyone");
    assert_eq!(anon.role, Role::Anonymous);
    assert_eq!(choose_user(Vec::new()).name, "*");
}
