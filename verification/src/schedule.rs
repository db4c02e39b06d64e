//! Times in publish and subscribe requests: `since=` values and delays such
//! as `30m`, `2h` or a Unix timestamp.

use vstd::prelude::*;
use crate::text::{lit, chars_of, string_of, str_eq, parse_i64, parse_i64_chars};
use crate::outside::{
    regex_captures, regex_captures_of, seconds_after, now_timestamp, chrono_timestamp_ok,
    delta_seconds_ok,
};

verus! {

/// A time as a request states it: a Unix timestamp, or seconds from now.
#[derive(Debug, Clone, Copy, PartialEq, Eq, Structural)]
pub enum TimeSpec {
    At(i64),
    After(i64),
}

/// The pattern of a relative time: a number and a unit.
pub open spec fn relative_pattern() -> Seq<char> {
    r"^(\d+)([smhd])$"@
}

/// The seconds in one of the units `s`, `m`, `h`, `d`.
pub open spec fn unit_seconds(u: Seq<char>) -> Option<int> {
    if u == "s"@ {
        Some(1)
    } else if u == "m"@ {
        Some(60)
    } else if u == "h"@ {
        Some(3600)
    } else if u == "d"@ {
        Some(86400)
    } else {
        None
    }
}

pub open spec fn invalid_format_error() -> Seq<char> {
    "Invalid time format"@
}

pub open spec fn invalid_amount_error() -> Seq<char> {
    "Invalid amount"@
}

pub open spec fn invalid_unit_error() -> Seq<char> {
    "Invalid unit"@
}

pub open spec fn out_of_range_error() -> Seq<char> {
    "Time out of range"@
}

/// What a time text states: a timestamp when it is a number, else a number
/// and unit; the error texts for everything else.
pub open spec fn time_spec_of(s: Seq<char>) -> Result<TimeSpec, Seq<char>> {
    match parse_i64(s) {
        Some(ts) => Ok(TimeSpec::At(ts)),
        None => match regex_captures_of(relative_pattern(), s) {
            Some(g) => if g.len() >= 3 && g[1] is Some && g[2] is Some {
                match parse_i64(g[1]->0) {
                    None => Err(invalid_amount_error()),
                    Some(amount) => match unit_seconds(g[2]->0) {
                        None => Err(invalid_unit_error()),
                        Some(u) => if i64::MIN <= amount * u <= i64::MAX {
                            Ok(TimeSpec::After((amount * u) as i64))
                        } else {
                            Err(out_of_range_error())
                        },
                    },
                }
            } else {
                Err(invalid_format_error())
            },
            None => Err(invalid_format_error()),
        },
    }
}

/// Reads a time text (see `time_spec_of`).
pub fn parse_time_spec(s: &str) -> (r: Result<TimeSpec, String>)
    ensures
        match (r, time_spec_of(s@)) {
            (Ok(a), Ok(b)) => a == b,
            (Err(e), Err(f)) => e@ == f,
            _ => false,
        },
{
    let cs = chars_of(s);
    match parse_i64_chars(&cs) {
        Some(ts) => {
            return Ok(TimeSpec::At(ts));
        },
        None => {},
    }
    match regex_captures(r"^(\d+)([smhd])$", s) {
        Some(g) => {
            if g.len() >= 3 {
                match (&g[1], &g[2]) {
                    (Some(amount_text), Some(unit)) => {
                        let amount = match parse_i64_chars(&chars_of(amount_text.as_str())) {
                            Some(a) => a,
                            None => {
                                return Err(lit("Invalid amount"));
                            },
                        };
                        let u = unit.as_str();
                        let per: i64 = if str_eq(u, "s") {
                            1
                        } else if str_eq(u, "m") {
                            60
                        } else if str_eq(u, "h") {
                            3600
                        } else if str_eq(u, "d") {
                            86400
                        } else {
                            return Err(lit("Invalid unit"));
                        };
                        return match amount.checked_mul(per) {
                            Some(secs) => Ok(TimeSpec::After(secs)),
                            None => Err(lit("Time out of range")),
                        };
                    },
                    _ => {},
                }
            }
            Err(lit("Invalid time format"))
        },
        None => Err(lit("Invalid time format")),
    }
}

/// The Unix time a time text names when the clock reads `now`: the
/// timestamp itself, or `now` plus the stated seconds; a relative time whose
/// sum chrono cannot hold is out of range.
pub open spec fn future_time_of(s: Seq<char>, now: i64) -> Result<i64, Seq<char>> {
    match time_spec_of(s) {
        Ok(TimeSpec::At(ts)) => Ok(ts),
        Ok(TimeSpec::After(secs)) => if delta_seconds_ok(secs as int) && chrono_timestamp_ok(
            now as int,
        ) && chrono_timestamp_ok(now + secs) {
            Ok((now + secs) as i64)
        } else {
            Err(out_of_range_error())
        },
        Err(f) => Err(f),
    }
}

/// The text view of a parsed time.
pub open spec fn time_result_view(r: Result<i64, String>) -> Result<i64, Seq<char>> {
    match r {
        Ok(t) => Ok(t),
        Err(e) => Err(e@),
    }
}

/// The Unix time a time text names when the clock reads `now` (see
/// `future_time_of`).
pub fn future_time_at(s: &str, now: i64) -> (r: Result<i64, String>)
    ensures
        time_result_view(r) == future_time_of(s@, now),
{
    match parse_time_spec(s) {
        Ok(TimeSpec::At(ts)) => Ok(ts),
        Ok(TimeSpec::After(secs)) => match seconds_after(now, secs) {
            Some(t) => Ok(t),
            None => Err(lit("Time out of range")),
        },
        Err(e) => Err(e),
    }
}

/// The Unix time a time text names, reading the clock for a relative time
/// (see `future_time_of`): the result is that of some clock reading chrono
/// can hold.
pub fn parse_future_time(s: &str) -> (r: Result<i64, String>)
    ensures
        exists|c: i64| chrono_timestamp_ok(c as int) && time_result_view(r) == #[trigger] future_time_of(s@, c),
{
    let now = now_timestamp();
    future_time_at(s, now)
}

/// Which cached messages a subscriber asks for.
#[derive(Debug, Clone, Copy, PartialEq, Eq, Structural)]
pub enum Since {
    Nothing,
    All,
    Latest,
    Time(i64),
}

/// A `since=` time when the clock reads `now`: the time it names, or
/// nothing when it names none.
pub open spec fn since_at(s: Seq<char>, now: i64) -> Since {
    match future_time_of(s, now) {
        Ok(t) => Since::Time(t),
        Err(_) => Since::Nothing,
    }
}

/// Whether `r` is what the `since=` value `s` asks for: `all`, `none` and
/// `latest` by name; otherwise the time it names (see `future_time_of`),
/// the clock read while parsing being some time chrono can hold, or
/// nothing when it names none.
pub open spec fn since_fits(s: Seq<char>, r: Since) -> bool {
    if s == "all"@ {
        r == Since::All
    } else if s == "none"@ {
        r == Since::Nothing
    } else if s == "latest"@ {
        r == Since::Latest
    } else {
        exists|c: i64| chrono_timestamp_ok(c as int) && r == #[trigger] since_at(s, c)
    }
}

impl Since {
    /// Reads a `since=` value (see `since_fits`).
    pub fn parse(s: &str) -> (r: Since)
        ensures
            since_fits(s@, r),
    {
        proof {
            reveal_strlit("all");
            reveal_strlit("none");
            reveal_strlit("latest");
            assert("all"@.len() == 3 && "none"@.len() == 4 && "latest"@.len() == 6);
        }
        if str_eq(s, "all") {
            return Since::All;
        }
        if str_eq(s, "none") {
            return Since::Nothing;
        }
        if str_eq(s, "latest") {
            return Since::Latest;
        }
        let now = now_timestamp();
        let r = match future_time_at(s, now) {
            Ok(ts) => Since::Time(ts),
            Err(_) => Since::Nothing,
        };
        assert(r == since_at(s@, now));
        r
    }
}

/// The time from which cached messages are sent: none are for `none`.
pub open spec fn cache_start(since: Since) -> Option<i64> {
    match since {
        Since::Nothing => None,
        Since::All => Some(0),
        Since::Latest => Some(0),
        Since::Time(t) => Some(t),
    }
}

pub fn cached_since(since: Since) -> (r: Option<i64>)
    ensures
        r == cache_start(since),
{
    match since {
        Since::Nothing => None,
        Since::All => Some(0),
        Since::Latest => Some(0),
        Since::Time(t) => Some(t),
    }
}

/// The `since=` parameter of a subscription (none when absent).
pub fn since_param(p: Option<&str>) -> (r: Since)
    ensures
        match p {
            Some(s) => since_fits(s@, r),
            None => r == Since::Nothing,
        },
{
    match p {
        Some(s) => Since::parse(s),
        None => Since::Nothing,
    }
}

/// Whether a `poll=` parameter asks for a one-off poll.
pub fn poll_param(p: Option<&str>) -> (r: bool)
    ensures
        r == (p matches Some(s) && (s@ == "1"@ || s@ == "yes"@)),
{
    match p {
        Some(s) => str_eq(s, "1") || str_eq(s, "yes"),
        None => false,
    }
}

} // verus!
