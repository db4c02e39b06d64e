//! Users, roles, tiers and permissions.

use vstd::prelude::*;
use crate::text::{lit, chars_of, string_of, str_eq, starts_with_str, slice_to_vec, split_once, split_once_char, has_prefix};
use crate::outside::{
    bcrypt_verify, bcrypt_hash, bcrypt_outcome, base64_decode, base64_decoded, utf8_string,
    new_uuid,
};
use vstd::utf8::{valid_utf8, decode_utf8};

verus! {

/// The role of a user account.
#[derive(Debug, Clone, Copy, PartialEq, Eq, Structural)]
pub enum Role {
    Admin,
    User,
    Anonymous,
}

/// The account tier, which decides the per-user limits.
#[derive(Debug, Clone, Copy, PartialEq, Eq, Structural)]
pub enum Tier {
    Free,
    Pro,
    Business,
}

/// The limits that come with a tier.
pub struct TierInfo {
    pub message_limit: i64,
    pub message_expiry_duration: i64,
    pub email_limit: i64,
    pub reservation_limit: i64,
    pub attachment_file_size_limit: i64,
    pub attachment_total_size_limit: i64,
    pub attachment_expiry_duration: i64,
    pub attachment_bandwidth_limit: i64,
}

impl Tier {
    /// The limits of each tier, as numbers.
    pub open spec fn limits(self) -> (int, int, int, int, int, int, int, int) {
        match self {
            Tier::Free => (256int, 43200int, 16int, 1int, 15728640int, 104857600int, 10800int, 524288000int),
            Tier::Pro => (5000int, 86400int, 500int, 10int, 524288000int, 5368709120int, 86400int, 10737418240int),
            Tier::Business => (100000int, 2592000int, 10000int, 100int, 5368709120int, 107374182400int, 2592000int, 107374182400int),
        }
    }

    pub fn info(&self) -> (r: TierInfo)
        ensures
            r.message_limit == self.limits().0,
            r.message_expiry_duration == self.limits().1,
            r.email_limit == self.limits().2,
            r.reservation_limit == self.limits().3,
            r.attachment_file_size_limit == self.limits().4,
            r.attachment_total_size_limit == self.limits().5,
            r.attachment_expiry_duration == self.limits().6,
            r.attachment_bandwidth_limit == self.limits().7,
    {
        match self {
            Tier::Free => TierInfo {
                message_limit: 256,
                message_expiry_duration: 12 * 3600,
                email_limit: 16,
                reservation_limit: 1,
                attachment_file_size_limit: 15 * 1024 * 1024,
                attachment_total_size_limit: 100 * 1024 * 1024,
                attachment_expiry_duration: 3 * 3600,
                attachment_bandwidth_limit: 500 * 1024 * 1024,
            },
            Tier::Pro => TierInfo {
                message_limit: 5000,
                message_expiry_duration: 24 * 3600,
                email_limit: 500,
                reservation_limit: 10,
                attachment_file_size_limit: 500 * 1024 * 1024,
                attachment_total_size_limit: 5 * 1024 * 1024 * 1024,
                attachment_expiry_duration: 24 * 3600,
                attachment_bandwidth_limit: 10 * 1024 * 1024 * 1024,
            },
            Tier::Business => TierInfo {
                message_limit: 100000,
                message_expiry_duration: 30 * 24 * 3600,
                email_limit: 10000,
                reservation_limit: 100,
                attachment_file_size_limit: 5 * 1024 * 1024 * 1024,
                attachment_total_size_limit: 100 * 1024 * 1024 * 1024,
                attachment_expiry_duration: 30 * 24 * 3600,
                attachment_bandwidth_limit: 100 * 1024 * 1024 * 1024,
            },
        }
    }
}


// ---------------------------------------------------------------------------
// Names of roles and tiers
// ---------------------------------------------------------------------------

/// The role that a stored name stands for (an unknown name means anonymous).
pub open spec fn role_of(s: Seq<char>) -> Role {
    if s == "admin"@ {
        Role::Admin
    } else if s == "user"@ {
        Role::User
    } else {
        Role::Anonymous
    }
}

/// The name under which a role is stored.
pub open spec fn role_name(r: Role) -> Seq<char> {
    match r {
        Role::Admin => "admin"@,
        Role::User => "user"@,
        Role::Anonymous => "anonymous"@,
    }
}

/// The tier that a stored name stands for (an unknown name means free).
pub open spec fn tier_of(s: Seq<char>) -> Tier {
    if s == "pro"@ {
        Tier::Pro
    } else if s == "business"@ {
        Tier::Business
    } else {
        Tier::Free
    }
}

/// The name under which a tier is stored.
pub open spec fn tier_name(t: Tier) -> Seq<char> {
    match t {
        Tier::Free => "free"@,
        Tier::Pro => "pro"@,
        Tier::Business => "business"@,
    }
}

impl From<String> for Role {
    fn from(s: String) -> (r: Role) {
        if str_eq(s.as_str(), "admin") {
            Role::Admin
        } else if str_eq(s.as_str(), "user") {
            Role::User
        } else {
            Role::Anonymous
        }
    }
}

impl vstd::std_specs::convert::FromSpecImpl<String> for Role {
    open spec fn obeys_from_spec() -> bool {
        true
    }

    open spec fn from_spec(v: String) -> Role {
        role_of(v@)
    }
}

impl From<String> for Tier {
    fn from(s: String) -> (r: Tier) {
        if str_eq(s.as_str(), "pro") {
            Tier::Pro
        } else if str_eq(s.as_str(), "business") {
            Tier::Business
        } else {
            Tier::Free
        }
    }
}

impl vstd::std_specs::convert::FromSpecImpl<String> for Tier {
    open spec fn obeys_from_spec() -> bool {
        true
    }

    open spec fn from_spec(v: String) -> Tier {
        tier_of(v@)
    }
}

impl From<Role> for String {
    fn from(r: Role) -> (s: String)
        ensures
            s@ == role_name(r),
    {
        r.name()
    }
}

impl vstd::std_specs::convert::FromSpecImpl<Role> for String {
    open spec fn obeys_from_spec() -> bool {
        false
    }

    open spec fn from_spec(v: Role) -> String {
        arbitrary()
    }
}

impl From<Tier> for String {
    fn from(t: Tier) -> (s: String)
        ensures
            s@ == tier_name(t),
    {
        t.name()
    }
}

impl vstd::std_specs::convert::FromSpecImpl<Tier> for String {
    open spec fn obeys_from_spec() -> bool {
        false
    }

    open spec fn from_spec(v: Tier) -> String {
        arbitrary()
    }
}

impl Role {
    /// The stored name of the role (what `String::from(role)` gives).
    pub fn name(&self) -> (r: String)
        ensures
            r@ == role_name(*self),
    {
        match self {
            Role::Admin => lit("admin"),
            Role::User => lit("user"),
            Role::Anonymous => lit("anonymous"),
        }
    }
}

impl Tier {
    /// The stored name of the tier (what `String::from(tier)` gives).
    pub fn name(&self) -> (r: String)
        ensures
            r@ == tier_name(*self),
    {
        match self {
            Tier::Free => lit("free"),
            Tier::Pro => lit("pro"),
            Tier::Business => lit("business"),
        }
    }
}

impl Default for Tier {
    fn default() -> (r: Tier)
        ensures
            r == Tier::Free,
    {
        Tier::Free
    }
}

/// A role read back from its stored name is the role; so is a tier.
pub proof fn lemma_names_roundtrip(r: Role, t: Tier)
    ensures
        role_of(role_name(r)) == r,
        tier_of(tier_name(t)) == t,
{
    reveal_strlit("admin");
    reveal_strlit("user");
    reveal_strlit("anonymous");
    reveal_strlit("free");
    reveal_strlit("pro");
    reveal_strlit("business");
    assert("admin"@.len() == 5);
    assert("user"@.len() == 4);
    assert("anonymous"@.len() == 9);
    assert("free"@.len() == 4);
    assert("pro"@.len() == 3);
    assert("business"@.len() == 8);
    assert("user"@ != "admin"@);
    assert("anonymous"@ != "admin"@);
    assert("anonymous"@ != "user"@);
    assert("free"@ != "pro"@);
    assert("free"@ != "business"@);
    assert("business"@ != "pro"@);
}

// ---------------------------------------------------------------------------
// Users
// ---------------------------------------------------------------------------

/// A user account.
pub struct User {
    pub id: String,
    pub name: String,
    pub hash: String,
    pub role: Role,
    pub tier: Tier,
}

pub struct UserView {
    pub id: Seq<char>,
    pub name: Seq<char>,
    pub hash: Seq<char>,
    pub role: Role,
    pub tier: Tier,
}

impl View for User {
    type V = UserView;

    open spec fn view(&self) -> UserView {
        UserView { id: self.id@, name: self.name@, hash: self.hash@, role: self.role, tier: self.tier }
    }
}

/// The columns of the user table for one account.
pub struct UserRow {
    pub id: String,
    pub name: String,
    pub hash: String,
    pub role: String,
    pub tier: String,
}

pub open spec fn user_of_row(id: Seq<char>, name: Seq<char>, hash: Seq<char>, role: Seq<char>, tier: Seq<char>) -> UserView {
    UserView { id, name, hash, role: role_of(role), tier: tier_of(tier) }
}

/// The account a stored row describes.
pub fn user_from_row(row: UserRow) -> (u: User)
    ensures
        u@ == user_of_row(row.id@, row.name@, row.hash@, row.role@, row.tier@),
{
    User {
        id: row.id,
        name: row.name,
        hash: row.hash,
        role: Role::from(row.role),
        tier: Tier::from(row.tier),
    }
}

/// The accounts that stored rows describe, in order.
pub fn users_from_rows(rows: Vec<UserRow>) -> (r: Vec<User>)
    ensures
        r@.len() == rows@.len(),
        forall|i: int|
            0 <= i < rows@.len() ==> #[trigger] r@[i]@ == user_of_row(
                rows@[i].id@,
                rows@[i].name@,
                rows@[i].hash@,
                rows@[i].role@,
                rows@[i].tier@,
            ),
{
    let mut out: Vec<User> = Vec::new();
    let mut i: usize = 0;
    while i < rows.len()
        invariant
            i <= rows@.len(),
            out@.len() == i,
            forall|k: int|
                0 <= k < i ==> #[trigger] out@[k]@ == user_of_row(
                    rows@[k].id@,
                    rows@[k].name@,
                    rows@[k].hash@,
                    rows@[k].role@,
                    rows@[k].tier@,
                ),
        decreases rows.len() - i,
    {
        let r = &rows[i];
        let row = UserRow {
            id: r.id.clone(),
            name: r.name.clone(),
            hash: r.hash.clone(),
            role: r.role.clone(),
            tier: r.tier.clone(),
        };
        out.push(user_from_row(row));
        i = i + 1;
    }
    out
}

/// The user every unauthenticated request acts as.
pub open spec fn anonymous() -> UserView {
    UserView { id: "u_everyone"@, name: "*"@, hash: Seq::empty(), role: Role::Anonymous, tier: Tier::Free }
}

pub fn anonymous_user() -> (u: User)
    ensures
        u@ == anonymous(),
{
    User {
        id: lit("u_everyone"),
        name: lit("*"),
        hash: String::new(),
        role: Role::Anonymous,
        tier: Tier::Free,
    }
}

/// Why a password could not be checked or stored.
#[derive(Debug, PartialEq, Eq, Structural)]
pub enum AuthError {
    /// The password hash could not be read or made.
    PasswordHash,
}

/// The outcome of logging in as the account `row` (if one was found under
/// the name) with `password`.
pub open spec fn login_outcome(row: Option<(Seq<char>, Seq<char>, Seq<char>, Seq<char>, Seq<char>)>, password: Seq<char>) -> Result<Option<UserView>, AuthError> {
    match row {
        None => Ok(None),
        Some((id, name, hash, role, tier)) => match bcrypt_outcome(password, hash) {
            None => Err(AuthError::PasswordHash),
            Some(true) => Ok(Some(user_of_row(id, name, hash, role, tier))),
            Some(false) => Ok(None),
        },
    }
}

pub open spec fn row_view(row: Option<UserRow>) -> Option<(Seq<char>, Seq<char>, Seq<char>, Seq<char>, Seq<char>)> {
    match row {
        Some(r) => Some((r.id@, r.name@, r.hash@, r.role@, r.tier@)),
        None => None,
    }
}

/// Logs in with a password: the account found under the user name (if any)
/// is the user when the password matches its hash.
pub fn authenticate(row: Option<UserRow>, password: &str) -> (r: Result<Option<User>, AuthError>)
    ensures
        match (r, login_outcome(row_view(row), password@)) {
            (Ok(Some(u)), Ok(Some(v))) => u@ == v,
            (Ok(None), Ok(None)) => true,
            (Err(e), Err(f)) => e == f,
            _ => false,
        },
{
    match row {
        None => Ok(None),
        Some(user_row) => {
            match bcrypt_verify(password, user_row.hash.as_str()) {
                Err(_) => Err(AuthError::PasswordHash),
                Ok(valid) => {
                    if valid {
                        Ok(Some(user_from_row(user_row)))
                    } else {
                        Ok(None)
                    }
                },
            }
        },
    }
}

/// Logs in with an access token: the account the token belongs to (the
/// token lookup having found one, or not).
pub fn authenticate_token(row: Option<UserRow>) -> (r: Option<User>)
    ensures
        match (r, row) {
            (Some(u), Some(x)) => u@ == user_of_row(x.id@, x.name@, x.hash@, x.role@, x.tier@),
            (None, None) => true,
            _ => false,
        },
{
    match row {
        Some(x) => Some(user_from_row(x)),
        None => None,
    }
}

/// The row for a new account: a fresh id, the password's hash, the role's
/// name and the free tier.
pub fn new_user_row(username: &str, password: &str, role: Role) -> (r: Result<UserRow, AuthError>)
    ensures
        match r {
            Ok(row) => {
                &&& row.id@.len() == 36
                &&& row.name@ == username@
                &&& bcrypt_outcome(password@, row.hash@) == Some(true)
                &&& row.role@ == role_name(role)
                &&& row.tier@ == "free"@
            },
            Err(e) => e == AuthError::PasswordHash,
        },
{
    let hash = match bcrypt_hash(password) {
        Ok(h) => h,
        Err(_) => {
            return Err(AuthError::PasswordHash);
        },
    };
    Ok(UserRow { id: new_uuid(), name: lit(username), hash, role: role.name(), tier: lit("free") })
}

/// The new hash when a password is changed.
pub fn new_password_hash(password: &str) -> (r: Result<String, AuthError>)
    ensures
        match r {
            Ok(h) => bcrypt_outcome(password@, h@) == Some(true),
            Err(e) => e == AuthError::PasswordHash,
        },
{
    match bcrypt_hash(password) {
        Ok(h) => Ok(h),
        Err(_) => Err(AuthError::PasswordHash),
    }
}

/// An account stored with a password logs in with that password.
pub proof fn lemma_login_with_stored_password(id: Seq<char>, name: Seq<char>, hash: Seq<char>, role: Seq<char>, tier: Seq<char>, password: Seq<char>)
    requires
        bcrypt_outcome(password, hash) == Some(true),
    ensures
        login_outcome(Some((id, name, hash, role, tier)), password) == Ok::<Option<UserView>, AuthError>(
            Some(user_of_row(id, name, hash, role, tier)),
        ),
{
}

// ---------------------------------------------------------------------------
// Credentials in a request
// ---------------------------------------------------------------------------

/// The credentials an `Authorization` header carries.
pub enum Credentials {
    Basic { username: String, password: String },
    Bearer(String),
    Missing,
}

pub enum CredentialsView {
    Basic { username: Seq<char>, password: Seq<char> },
    Bearer(Seq<char>),
    Missing,
}

impl View for Credentials {
    type V = CredentialsView;

    open spec fn view(&self) -> CredentialsView {
        match self {
            Credentials::Basic { username, password } => CredentialsView::Basic {
                username: username@,
                password: password@,
            },
            Credentials::Bearer(t) => CredentialsView::Bearer(t@),
            Credentials::Missing => CredentialsView::Missing,
        }
    }
}

/// What an `Authorization` header value means: `Basic` with base64 of
/// `user:password`, or `Bearer` with a token; anything else carries nothing.
pub open spec fn credentials_of(h: Seq<char>) -> CredentialsView {
    if has_prefix(h, "Basic "@) {
        match base64_decoded(h.skip(6)) {
            Some(bytes) => if valid_utf8(bytes) {
                match split_once(decode_utf8(bytes), ':') {
                    Some((u, p)) => CredentialsView::Basic { username: u, password: p },
                    None => CredentialsView::Missing,
                }
            } else {
                CredentialsView::Missing
            },
            None => CredentialsView::Missing,
        }
    } else if has_prefix(h, "Bearer "@) {
        CredentialsView::Bearer(h.skip(7))
    } else {
        CredentialsView::Missing
    }
}

/// Reads the credentials of an `Authorization` header.
pub fn parse_authorization(header: &str) -> (r: Credentials)
    ensures
        r@ == credentials_of(header@),
{
    let h = chars_of(header);
    proof {
        reveal_strlit("Basic ");
        reveal_strlit("Bearer ");
    }
    if starts_with_str(&h, "Basic ") {
        let token = string_of(&slice_to_vec(&h, 6, h.len()));
        match base64_decode(token.as_str()) {
            Some(bytes) => match {
                assert(bytes.deep_view() =~= bytes@);
                utf8_string(bytes)
            } {
                Some(creds) => {
                    let cv = chars_of(creds.as_str());
                    match split_once_char(&cv, ':') {
                        Some((u, p)) => Credentials::Basic {
                            username: string_of(&u),
                            password: string_of(&p),
                        },
                        None => Credentials::Missing,
                    }
                },
                None => Credentials::Missing,
            },
            None => Credentials::Missing,
        }
    } else if starts_with_str(&h, "Bearer ") {
        Credentials::Bearer(string_of(&slice_to_vec(&h, 7, h.len())))
    } else {
        Credentials::Missing
    }
}

/// The logins a request offers, in the order they are tried: the
/// `Authorization` header's credentials (if it carries any), then the token
/// of the `auth` query parameter. The first that succeeds decides the user;
/// when none does, the request is anonymous.
pub open spec fn attempts_of(header: Option<Seq<char>>, auth_param: Option<Seq<char>>) -> Seq<CredentialsView> {
    let first = match header {
        Some(h) => if credentials_of(h) is Missing {
            Seq::empty()
        } else {
            seq![credentials_of(h)]
        },
        None => Seq::empty(),
    };
    match auth_param {
        Some(t) => first.push(CredentialsView::Bearer(t)),
        None => first,
    }
}

pub fn login_attempts(header: Option<&str>, auth_param: Option<&str>) -> (r: Vec<Credentials>)
    ensures
        r@.map_values(|c: Credentials| c@) == attempts_of(
            match header {
                Some(h) => Some(h@),
                None => None,
            },
            match auth_param {
                Some(t) => Some(t@),
                None => None,
            },
        ),
{
    let mut out: Vec<Credentials> = Vec::new();
    match header {
        Some(h) => {
            let c = parse_authorization(h);
            match c {
                Credentials::Missing => {},
                _ => out.push(c),
            }
        },
        None => {},
    }
    match auth_param {
        Some(t) => out.push(Credentials::Bearer(string_of(&chars_of(t)))),
        None => {},
    }
    assert(out@.map_values(|c: Credentials| c@) =~= attempts_of(
        match header {
            Some(h) => Some(h@),
            None => None,
        },
        match auth_param {
            Some(t) => Some(t@),
            None => None,
        },
    ));
    out
}

/// The user a request acts as, given the accounts its login attempts found
/// in the order they were tried (`None` for one that found none): the first
/// found, else `fallback`.
pub open spec fn chosen_from(found: Seq<Option<UserView>>, fallback: UserView) -> UserView
    decreases found.len(),
{
    if found.len() == 0 {
        fallback
    } else {
        match found[0] {
            Some(u) => u,
            None => chosen_from(found.drop_first(), fallback),
        }
    }
}

pub open spec fn found_view(found: Seq<Option<User>>) -> Seq<Option<UserView>> {
    found.map_values(|o: Option<User>| match o {
        Some(u) => Some(u@),
        None => None,
    })
}

proof fn lemma_chosen_push(found: Seq<Option<UserView>>, last: Option<UserView>, fallback: UserView)
    ensures
        chosen_from(found.push(last), fallback) == chosen_from(
            found,
            match last {
                Some(u) => u,
                None => fallback,
            },
        ),
    decreases found.len(),
{
    assert(found.push(last)[0] == if found.len() > 0 {
        found[0]
    } else {
        last
    });
    if found.len() > 0 {
        assert(found.push(last).drop_first() =~= found.drop_first().push(last));
        lemma_chosen_push(found.drop_first(), last, fallback);
    } else {
        assert(found.push(last).drop_first() =~= Seq::<Option<UserView>>::empty());
        assert(chosen_from(Seq::<Option<UserView>>::empty(), fallback) == fallback);
    }
}

/// The user a request acts as: the account of its first login attempt that
/// found one (see `login_attempts` for their order), else the anonymous user.
pub fn choose_user(found: Vec<Option<User>>) -> (u: User)
    ensures
        u@ == chosen_from(found_view(found@), anonymous()),
{
    let ghost all = found_view(found@);
    let mut rest = found;
    let mut chosen = anonymous_user();
    while rest.len() > 0
        invariant
            chosen_from(all, anonymous()) == chosen_from(found_view(rest@), chosen@),
        decreases rest.len(),
    {
        let ghost before = rest@;
        let last = rest.pop().unwrap();
        let ghost last_view: Option<UserView> = match &last {
            Some(x) => Some(x@),
            None => None,
        };
        proof {
            assert(found_view(before) =~= found_view(rest@).push(last_view));
            lemma_chosen_push(found_view(rest@), last_view, chosen@);
        }
        match last {
            Some(u) => {
                chosen = u;
            },
            None => {},
        }
    }
    assert(found_view(rest@) =~= Seq::<Option<UserView>>::empty());
    chosen
}

// ---------------------------------------------------------------------------
// Permissions and access decisions
// ---------------------------------------------------------------------------

/// An access level to a topic.
#[derive(Debug, Clone, Copy, PartialEq, Eq, Structural)]
pub enum Permission {
    DenyAll,
    Read,
    Write,
    ReadWrite,
}

pub open spec fn permission_of(read: bool, write: bool) -> Permission {
    match (read, write) {
        (true, true) => Permission::ReadWrite,
        (true, false) => Permission::Read,
        (false, true) => Permission::Write,
        (false, false) => Permission::DenyAll,
    }
}

pub open spec fn allows_read(p: Permission) -> bool {
    p == Permission::Read || p == Permission::ReadWrite
}

pub open spec fn allows_write(p: Permission) -> bool {
    p == Permission::Write || p == Permission::ReadWrite
}

impl Permission {
    pub fn new(read: bool, write: bool) -> (r: Permission)
        ensures
            r == permission_of(read, write),
    {
        match (read, write) {
            (true, true) => Permission::ReadWrite,
            (true, false) => Permission::Read,
            (false, true) => Permission::Write,
            (false, false) => Permission::DenyAll,
        }
    }

    pub fn is_read(&self) -> (r: bool)
        ensures
            r == allows_read(*self),
    {
        match self {
            Permission::Read | Permission::ReadWrite => true,
            _ => false,
        }
    }

    pub fn is_write(&self) -> (r: bool)
        ensures
            r == allows_write(*self),
    {
        match self {
            Permission::Write | Permission::ReadWrite => true,
            _ => false,
        }
    }
}

/// A permission is exactly the reading and writing it allows.
pub proof fn lemma_permission_parts(read: bool, write: bool, p: Permission)
    ensures
        allows_read(permission_of(read, write)) == read,
        allows_write(permission_of(read, write)) == write,
        permission_of(allows_read(p), allows_write(p)) == p,
{
}

/// The access that the `auth-default-access` setting grants.
pub open spec fn default_permission(s: Seq<char>) -> Permission {
    if s == "read-write"@ || s == "rw"@ {
        Permission::ReadWrite
    } else if s == "read-only"@ || s == "read"@ || s == "ro"@ {
        Permission::Read
    } else if s == "write-only"@ || s == "write"@ || s == "wo"@ {
        Permission::Write
    } else {
        Permission::DenyAll
    }
}

pub fn parse_default_permission(s: &str) -> (r: Permission)
    ensures
        r == default_permission(s@),
{
    if str_eq(s, "read-write") || str_eq(s, "rw") {
        Permission::ReadWrite
    } else if str_eq(s, "read-only") || str_eq(s, "read") || str_eq(s, "ro") {
        Permission::Read
    } else if str_eq(s, "write-only") || str_eq(s, "write") || str_eq(s, "wo") {
        Permission::Write
    } else {
        Permission::DenyAll
    }
}

/// Whether holding `held` grants a request for `requested`.
pub open spec fn grants(held: Permission, requested: Permission) -> bool {
    ||| (requested == Permission::Read && allows_read(held))
    ||| (requested == Permission::Write && allows_write(held))
    ||| (requested == Permission::ReadWrite && allows_read(held) && allows_write(held))
}

/// Whether a request for `requested` is granted, given the most specific
/// access-list entry that matches the user and topic (its read and write
/// flags), if any, and the default access setting.
pub open spec fn access_granted(entry: Option<(i64, i64)>, requested: Permission, default_access: Seq<char>) -> bool {
    match entry {
        Some((read, write)) => grants(permission_of(read != 0, write != 0), requested),
        None => grants(default_permission(default_access), requested),
    }
}

fn check_grant(held: Permission, requested: Permission) -> (r: bool)
    ensures
        r == grants(held, requested),
{
    if requested == Permission::Read && held.is_read() {
        return true;
    }
    if requested == Permission::Write && held.is_write() {
        return true;
    }
    if requested == Permission::ReadWrite && held.is_read() && held.is_write() {
        return true;
    }
    false
}

/// Decides a request for access to a topic. `entry` is the first of the
/// access-list entries matching the user (or everyone) and the topic, most
/// specific first; without one, the default access applies.
pub fn authorize(entry: Option<(i64, i64)>, requested: Permission, default_access: &str) -> (r: bool)
    ensures
        r == access_granted(entry, requested, default_access@),
{
    match entry {
        Some((read, write)) => {
            let p = Permission::new(read != 0, write != 0);
            check_grant(p, requested)
        },
        None => {
            let p = parse_default_permission(default_access);
            check_grant(p, requested)
        },
    }
}

/// Without a matching access-list entry, writing is granted exactly under
/// the default-access settings that name write access (`read-write`, `rw`,
/// `write-only`, `write`, `wo`), and reading exactly under those that name
/// read access (`read-write`, `rw`, `read-only`, `read`, `ro`); every other
/// setting denies both.
pub proof fn lemma_default_access_names(d: Seq<char>)
    ensures
        access_granted(None, Permission::Write, d) <==> (d == "read-write"@ || d == "rw"@ || d
            == "write-only"@ || d == "write"@ || d == "wo"@),
        access_granted(None, Permission::Read, d) <==> (d == "read-write"@ || d == "rw"@ || d
            == "read-only"@ || d == "read"@ || d == "ro"@),
{
    reveal_strlit("read-write");
    reveal_strlit("rw");
    reveal_strlit("read-only");
    reveal_strlit("read");
    reveal_strlit("ro");
    reveal_strlit("write-only");
    reveal_strlit("write");
    reveal_strlit("wo");
    assert("read-write"@.len() == 10);
    assert("rw"@.len() == 2);
    assert("read-only"@.len() == 9);
    assert("read"@.len() == 4);
    assert("ro"@.len() == 2);
    assert("write-only"@.len() == 10);
    assert("write"@.len() == 5);
    assert("wo"@.len() == 2);
    assert("rw"@[1] != "ro"@[1] && "rw"@[0] != "wo"@[0] && "ro"@[0] != "wo"@[0]);
    assert("read-write"@[0] != "write-only"@[0]);
}

/// Read-write access is granted exactly when read access and write access are.
pub proof fn lemma_read_write_is_both(entry: Option<(i64, i64)>, default_access: Seq<char>)
    ensures
        access_granted(entry, Permission::ReadWrite, default_access) == (access_granted(
            entry,
            Permission::Read,
            default_access,
        ) && access_granted(entry, Permission::Write, default_access)),
{
}

/// A matching access-list entry decides alone: the default access plays no part.
pub proof fn lemma_entry_overrides_default(read: i64, write: i64, requested: Permission, d1: Seq<char>, d2: Seq<char>)
    ensures
        access_granted(Some((read, write)), requested, d1) == access_granted(
            Some((read, write)),
            requested,
            d2,
        ),
{
}

/// Asking for no access is never granted.
pub proof fn lemma_deny_all_never_granted(entry: Option<(i64, i64)>, default_access: Seq<char>)
    ensures
        !access_granted(entry, Permission::DenyAll, default_access),
{
}

/// Under the default `read-write` setting, anything but `DenyAll` is granted
/// when no entry matches.
pub proof fn lemma_open_by_default(requested: Permission)
    requires
        requested != Permission::DenyAll,
    ensures
        access_granted(None, requested, "read-write"@),
{
}

} // verus!
