//! The calls into outside crates and into the parts of std that vstd does not
//! specify. Every item here is trusted: its contract is believed, not proved.
//! Each doc comment names the function called and what the contract claims.

use vstd::prelude::*;
use vstd::utf8::{valid_utf8, decode_utf8};

verus! {

// ---------------------------------------------------------------------------
// regex
// ---------------------------------------------------------------------------

/// What `regex::Regex::new(pattern)` followed by `captures(text)` gives: `None`
/// when the pattern does not compile or does not match, else the text of each
/// capture group (group 0 being the whole match), `None` for a group that took
/// no part in the match.
pub uninterp spec fn regex_captures_of(pattern: Seq<char>, text: Seq<char>) -> Option<
    Seq<Option<Seq<char>>>,
>;

/// Calls `regex::Regex::new` and `Regex::captures`. Claims that the result is
/// `regex_captures_of(pattern, text)`, and, as the regex documentation states,
/// that a match has a group 0 (the whole match), which is a substring of
/// `text` and so no longer than it.
#[verifier::external_body]
pub fn regex_captures(pattern: &str, text: &str) -> (r: Option<Vec<Option<String>>>)
    ensures
        match r {
            Some(groups) => {
                &&& regex_captures_of(pattern@, text@) == Some(groups.deep_view())
                &&& groups.len() >= 1
                &&& groups@[0] is Some
                &&& groups@[0]->0@.len() <= text@.len()
            },
            None => regex_captures_of(pattern@, text@) is None,
        },
{
    let re = regex::Regex::new(pattern).ok()?;
    let caps = re.captures(text)?;
    Some(caps.iter().map(|m| m.map(|m| m.as_str().to_string())).collect())
}

// ---------------------------------------------------------------------------
// rand, uuid, chrono: chance and the clock
// ---------------------------------------------------------------------------

/// Calls `rand::random::<u64>()`. Nothing is claimed of the number.
#[verifier::external_body]
pub fn random_u64() -> (r: u64) {
    rand::random::<u64>()
}

/// Calls `uuid::Uuid::new_v4()` and formats it with `to_string`. Claims only
/// what the uuid documentation gives of the hyphenated form: 36 characters.
#[verifier::external_body]
pub fn new_uuid() -> (r: String)
    ensures
        r@.len() == 36,
{
    uuid::Uuid::new_v4().to_string()
}

/// Whether chrono's `DateTime<Utc>` can hold the Unix time `t` (seconds):
/// what `chrono::DateTime::from_timestamp(t, 0).is_some()` gives. chrono's
/// range is one contiguous stretch of time.
pub uninterp spec fn chrono_timestamp_ok(t: int) -> bool;

/// Calls `chrono::Utc::now().timestamp()`: the current Unix time in seconds.
/// Claims only that it is a time chrono can hold (every `DateTime<Utc>` is);
/// nothing is claimed of which time it is.
#[verifier::external_body]
pub fn now_timestamp() -> (r: i64)
    ensures
        chrono_timestamp_ok(r as int),
{
    chrono::Utc::now().timestamp()
}

// ---------------------------------------------------------------------------
// std text conversions that vstd does not specify
// ---------------------------------------------------------------------------

/// What std's `str::to_lowercase` gives (full Unicode case mapping).
pub uninterp spec fn lowercase_of(s: Seq<char>) -> Seq<char>;

/// Calls std's `str::to_lowercase`. Claims the result is `lowercase_of(s)`.
#[verifier::external_body]
pub fn to_lowercase(s: &str) -> (r: String)
    ensures
        r@ == lowercase_of(s@),
{
    s.to_lowercase()
}

/// What std's `str::to_uppercase` gives (full Unicode case mapping).
pub uninterp spec fn uppercase_of(s: Seq<char>) -> Seq<char>;

/// Calls std's `str::to_uppercase`. Claims the result is `uppercase_of(s)`.
#[verifier::external_body]
pub fn to_uppercase(s: &str) -> (r: String)
    ensures
        r@ == uppercase_of(s@),
{
    s.to_uppercase()
}

/// Calls std's `String::from_utf8`. Claims, as its documentation states, that
/// it succeeds exactly on valid UTF-8 and then holds the decoded characters.
#[verifier::external_body]
pub fn utf8_string(bytes: Vec<u8>) -> (r: Option<String>)
    ensures
        r is Some <==> valid_utf8(bytes@),
        r matches Some(s) ==> s@ == decode_utf8(bytes@),
{
    String::from_utf8(bytes).ok()
}

/// What std's `String::from_utf8_lossy` gives: the bytes decoded, with each
/// invalid sequence replaced by U+FFFD.
pub uninterp spec fn utf8_lossy_of(bytes: Seq<u8>) -> Seq<char>;

/// Calls std's `String::from_utf8_lossy`. Claims the result is
/// `utf8_lossy_of(bytes)`, and, as its documentation states, that valid UTF-8
/// is decoded unchanged.
#[verifier::external_body]
pub fn utf8_lossy(bytes: &[u8]) -> (r: String)
    ensures
        r@ == utf8_lossy_of(bytes@),
        valid_utf8(bytes@) ==> r@ == decode_utf8(bytes@),
{
    String::from_utf8_lossy(bytes).into_owned()
}

} // verus!

verus! {

// ---------------------------------------------------------------------------
// mail-parser
// ---------------------------------------------------------------------------

/// What `mail_parser::MessageParser::default().parse(data)` makes of raw
/// email bytes: `None` when it is not an email, else its subject and its first
/// text body part, each `None` when absent.
pub uninterp spec fn email_parts_of(data: Seq<u8>) -> Option<(Option<Seq<char>>, Option<Seq<char>>)>;

/// Calls `MessageParser::parse`, then `Message::subject` and
/// `Message::body_text(0)`. Claims the result is `email_parts_of(data)`.
#[verifier::external_body]
pub fn parse_email(data: &[u8]) -> (r: Option<(Option<String>, Option<String>)>)
    ensures
        r.deep_view() == email_parts_of(data@),
{
    let m = mail_parser::MessageParser::default().parse(data)?;
    Some((m.subject().map(|s| s.to_string()), m.body_text(0).map(|b| b.into_owned())))
}

} // verus!

verus! {

// ---------------------------------------------------------------------------
// bcrypt
// ---------------------------------------------------------------------------

#[verifier::external_type_specification]
#[verifier::external_body]
pub struct ExBcryptError(bcrypt::BcryptError);

/// What `bcrypt::verify(password, hash)` gives: `None` for an error (a hash
/// that cannot be read), else whether the password matches the hash. The
/// salt and cost are part of the hash, so this depends on the arguments alone.
pub uninterp spec fn bcrypt_outcome(password: Seq<char>, hash: Seq<char>) -> Option<bool>;

/// Calls `bcrypt::verify`. Claims the outcome is `bcrypt_outcome(password, hash)`.
#[verifier::external_body]
pub fn bcrypt_verify(password: &str, hash: &str) -> (r: Result<bool, bcrypt::BcryptError>)
    ensures
        match r {
            Ok(b) => bcrypt_outcome(password@, hash@) == Some(b),
            Err(_) => bcrypt_outcome(password@, hash@) is None,
        },
{
    bcrypt::verify(password, hash)
}

/// Calls `bcrypt::hash(password, bcrypt::DEFAULT_COST)`, which salts at
/// random. Claims only what the bcrypt documentation shows of a hash it
/// makes: `verify` accepts the same password against it.
#[verifier::external_body]
pub fn bcrypt_hash(password: &str) -> (r: Result<String, bcrypt::BcryptError>)
    ensures
        r matches Ok(h) ==> bcrypt_outcome(password@, h@) == Some(true),
{
    bcrypt::hash(password, bcrypt::DEFAULT_COST)
}

// ---------------------------------------------------------------------------
// base64
// ---------------------------------------------------------------------------

/// What standard (padded) base64 decoding makes of `s`: `None` when it is
/// not valid base64.
pub uninterp spec fn base64_decoded(s: Seq<char>) -> Option<Seq<u8>>;

/// Calls `base64::engine::general_purpose::STANDARD.decode(s)`. Claims the
/// result is `base64_decoded(s)`.
#[verifier::external_body]
pub fn base64_decode(s: &str) -> (r: Option<Vec<u8>>)
    ensures
        r.deep_view() == base64_decoded(s@),
{
    base64::Engine::decode(&base64::engine::general_purpose::STANDARD, s).ok()
}

} // verus!

verus! {

// ---------------------------------------------------------------------------
// chrono: a time some seconds after another
// ---------------------------------------------------------------------------

/// The bound on a span of seconds that `chrono::TimeDelta::try_seconds`
/// accepts: its documentation returns `None` beyond `i64::MAX / 1_000` either way.
pub open spec fn delta_seconds_ok(secs: int) -> bool {
    -(i64::MAX / 1000) <= secs <= i64::MAX / 1000
}

/// Calls `chrono::DateTime::from_timestamp(ts, 0)`, `TimeDelta::try_seconds(secs)`,
/// `DateTime::checked_add_signed` and `timestamp`. Claims, as chrono documents,
/// that the sum exists exactly when `secs` is a span chrono accepts and both
/// `ts` and `ts + secs` are times it can hold, and that it is then `ts + secs`.
#[verifier::external_body]
pub fn seconds_after(ts: i64, secs: i64) -> (r: Option<i64>)
    ensures
        r is Some <==> (delta_seconds_ok(secs as int) && chrono_timestamp_ok(ts as int)
            && chrono_timestamp_ok(ts + secs)),
        r matches Some(t) ==> t == ts + secs,
{
    let start = chrono::DateTime::from_timestamp(ts, 0)?;
    let d = chrono::TimeDelta::try_seconds(secs)?;
    start.checked_add_signed(d).map(|t| t.timestamp())
}

} // verus!

verus! {

// ---------------------------------------------------------------------------
// url, mime_guess
// ---------------------------------------------------------------------------

/// What `url::Url::parse(s)` makes of `s`: `None` when it is not a URL,
/// else its path (`Url::path`) and its decoded query pairs in order
/// (`Url::query_pairs`).
pub uninterp spec fn url_parts_of(s: Seq<char>) -> Option<(Seq<char>, Seq<(Seq<char>, Seq<char>)>)>;

/// Calls `url::Url::parse`, then `Url::path` and `Url::query_pairs`. Claims
/// the result is `url_parts_of(s)`.
#[verifier::external_body]
pub fn parse_url(s: &str) -> (r: Option<(String, Vec<(String, String)>)>)
    ensures
        r.deep_view() == url_parts_of(s@),
{
    let u = url::Url::parse(s).ok()?;
    Some((u.path().to_string(), u.query_pairs().into_owned().collect()))
}

/// The media type `mime_guess` gives a path by its extension
/// (`application/octet-stream` when it knows none).
pub uninterp spec fn mime_type_of(path: Seq<char>) -> Seq<char>;

/// Calls `mime_guess::from_path(path).first_or_octet_stream()`. Claims the
/// result's text is `mime_type_of(path)`.
#[verifier::external_body]
pub fn mime_for_path(path: &str) -> (r: String)
    ensures
        r@ == mime_type_of(path@),
{
    mime_guess::from_path(path).first_or_octet_stream().as_ref().to_string()
}

} // verus!

verus! {

// ---------------------------------------------------------------------------
// lettre: email addresses
// ---------------------------------------------------------------------------

/// Whether lettre reads `s` as a mailbox (`"name <user@domain>"` or
/// `user@domain`): what `s.parse::<lettre::message::Mailbox>().is_ok()` gives.
pub uninterp spec fn mailbox_ok(s: Seq<char>) -> bool;

/// Calls `<lettre::message::Mailbox as FromStr>::from_str`. Claims the
/// outcome is `mailbox_ok(s)`.
#[verifier::external_body]
pub fn is_mailbox(s: &str) -> (r: bool)
    ensures
        r == mailbox_ok(s@),
{
    s.parse::<lettre::message::Mailbox>().is_ok()
}

} // verus!
