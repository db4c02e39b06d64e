//! Action buttons and the compact grammar in which publishers write them,
//! e.g. `view, Open portal, https://example.com; http, Reset, url=..., method=post`.
//!
//! A JSON array is recognized here too, but turned into values by the caller,
//! since this crate holds no serialization code.

use vstd::prelude::*;
use crate::text::{lit, 
    chars_of, string_of, str_eq, starts_with_str, slice_to_vec, trim_range, trim_chars,
    skip_whitespace, push_str, push_chars, u64_to_decimal, has_prefix, trim, skip_ws,
    lemma_skip_ws, is_ws, int_decimal, is_whitespace,
};
use crate::outside::{
    regex_captures, regex_captures_of, random_u64, to_lowercase, to_uppercase, lowercase_of,
    uppercase_of,
};

verus! {

// ---------------------------------------------------------------------------
// A string-to-string map kept as a list in which a later pair wins
// ---------------------------------------------------------------------------

/// The map that a list of pairs denotes when each pair overrides earlier ones.
pub open spec fn pairs_map(p: Seq<(Seq<char>, Seq<char>)>) -> Map<Seq<char>, Seq<char>>
    decreases p.len(),
{
    if p.len() == 0 {
        Map::empty()
    } else {
        pairs_map(p.drop_last()).insert(p.last().0, p.last().1)
    }
}

/// A string-to-string map (the headers and extras of an action).
pub struct StringMap {
    pub entries: Vec<(String, String)>,
}

impl View for StringMap {
    type V = Map<Seq<char>, Seq<char>>;

    open spec fn view(&self) -> Map<Seq<char>, Seq<char>> {
        pairs_map(self.entries.deep_view())
    }
}

impl StringMap {
    pub fn new() -> (r: Self)
        ensures
            r@ == Map::<Seq<char>, Seq<char>>::empty(),
    {
        StringMap { entries: Vec::new() }
    }

    /// Sets `k` to `v`, replacing any earlier value.
    pub fn insert(&mut self, k: String, v: String)
        ensures
            final(self)@ == old(self)@.insert(k@, v@),
    {
        let ghost before = self.entries.deep_view();
        self.entries.push((k, v));
        assert(self.entries.deep_view().drop_last() == before);
    }
}

// ---------------------------------------------------------------------------
// Actions
// ---------------------------------------------------------------------------

/// An action button attached to a notification.
pub struct Action {
    pub id: String,
    pub action: String,
    pub label: String,
    pub clear: bool,
    pub url: Option<String>,
    pub method: Option<String>,
    pub headers: Option<StringMap>,
    pub body: Option<String>,
    pub intent: Option<String>,
    pub extras: Option<StringMap>,
    pub value: Option<String>,
}

/// An action as the grammar defines it (every field but the random id).
pub struct ActionView {
    pub action: Seq<char>,
    pub label: Seq<char>,
    pub clear: bool,
    pub url: Option<Seq<char>>,
    pub method: Option<Seq<char>>,
    pub headers: Option<Map<Seq<char>, Seq<char>>>,
    pub body: Option<Seq<char>>,
    pub intent: Option<Seq<char>>,
    pub extras: Option<Map<Seq<char>, Seq<char>>>,
    pub value: Option<Seq<char>>,
}

pub open spec fn map_view(m: Option<StringMap>) -> Option<Map<Seq<char>, Seq<char>>> {
    match m {
        Some(x) => Some(x@),
        None => None,
    }
}

impl View for Action {
    type V = ActionView;

    open spec fn view(&self) -> ActionView {
        ActionView {
            action: self.action@,
            label: self.label@,
            clear: self.clear,
            url: self.url.deep_view(),
            method: self.method.deep_view(),
            headers: map_view(self.headers),
            body: self.body.deep_view(),
            intent: self.intent.deep_view(),
            extras: map_view(self.extras),
            value: self.value.deep_view(),
        }
    }
}

/// An action with nothing set yet.
pub open spec fn blank_action() -> ActionView {
    ActionView {
        action: Seq::empty(),
        label: Seq::empty(),
        clear: false,
        url: None,
        method: None,
        headers: None,
        body: None,
        intent: None,
        extras: None,
        value: None,
    }
}

/// The id given to a parsed action: the first ten decimal digits of a random number.
pub open spec fn action_id_of(n: u64) -> Seq<char> {
    let d = int_decimal(n as int);
    if d.len() <= 10 {
        d
    } else {
        d.take(10)
    }
}

/// Whether `s` is an id that a parsed action can get.
pub open spec fn is_action_id(s: Seq<char>) -> bool {
    exists|n: u64| s == action_id_of(n)
}

fn new_action_id() -> (r: String)
    ensures
        is_action_id(r@),
{
    let n = random_u64();
    let d = u64_to_decimal(n);
    let v = if d.len() <= 10 {
        d
    } else {
        slice_to_vec(&d, 0, 10)
    };
    let r = string_of(&v);
    assert(r@ == action_id_of(n));
    r
}

// ---------------------------------------------------------------------------
// The grammar, as spec functions over a character sequence and a position
// ---------------------------------------------------------------------------

/// The character at `p`, or NUL past the end.
pub open spec fn peek_at(s: Seq<char>, p: int) -> char {
    if 0 <= p < s.len() {
        s[p]
    } else {
        '\0'
    }
}

/// How far reading the character at `p` moves (nothing past the end).
pub open spec fn width_at(s: Seq<char>, p: int) -> int {
    if 0 <= p < s.len() {
        1
    } else {
        0
    }
}

pub open spec fn ends_section(c: char) -> bool {
    c == '\0' || c == ';' || c == ','
}

pub open spec fn ends_action(c: char) -> bool {
    c == '\0' || c == ';'
}

/// The pattern of an explicit key: `key=` with optional spaces around `=`.
pub open spec fn key_pattern() -> Seq<char> {
    r"^([-.\w]+)\s*=\s*"@
}

/// An explicit key at `p` and the position after it (with its `=`); an empty
/// key and `p` when there is none.
pub open spec fn key_at(s: Seq<char>, p: int) -> (Seq<char>, int) {
    match regex_captures_of(key_pattern(), s.skip(p)) {
        Some(g) => if g.len() >= 2 && g[0] is Some && g[1] is Some && p + g[0]->0.len()
            <= s.len() {
            (g[1]->0, p + g[0]->0.len())
        } else {
            (Seq::empty(), p)
        },
        None => (Seq::empty(), p),
    }
}

/// The first position at or after `p` holding a section end (or the end of input).
pub open spec fn section_end(s: Seq<char>, p: int) -> int
    decreases s.len() - p,
{
    if p >= s.len() || ends_section(s[p]) {
        p
    } else {
        section_end(s, p + 1)
    }
}

/// An unquoted value starting at `p`: its trimmed text, whether it ends the
/// action, and the position after its terminator.
pub open spec fn value_at(s: Seq<char>, p: int) -> (Seq<char>, bool, int) {
    let j = section_end(s, p);
    (trim(s.subrange(p, j)), ends_action(peek_at(s, j)), j + width_at(s, j))
}

/// The position of the quote that closes a quoted value, scanning from `i`
/// with `prev` the character before `i`; `None` when the input (or a NUL)
/// comes first.
pub open spec fn closing_quote(s: Seq<char>, i: int, q: char, prev: char) -> Option<int>
    decreases s.len() - i,
{
    if i >= s.len() || s[i] == '\0' {
        None
    } else if s[i] == q && prev != '\\' {
        Some(i)
    } else {
        closing_quote(s, i + 1, q, s[i])
    }
}

/// `t` with each backslash-quote pair replaced by the quote (std's
/// `str::replace`, which replaces non-overlapping matches from the left).
pub open spec fn unescape(t: Seq<char>, q: char) -> Seq<char>
    decreases t.len(),
{
    if t.len() == 0 {
        Seq::empty()
    } else if t.len() >= 2 && t[0] == '\\' && t[1] == q {
        seq![q] + unescape(t.skip(2), q)
    } else {
        seq![t[0]] + unescape(t.drop_first(), q)
    }
}

pub open spec fn eof_in_quote_error() -> Seq<char> {
    "Unexpected EOF in quoted string"@
}

pub open spec fn after_quote_error(c: char) -> Seq<char> {
    "Unexpected character '"@ + seq![c] + "' after quoted string"@
}

/// A quoted value whose opening quote `q` is at `p`.
pub open spec fn quoted_at(s: Seq<char>, p: int, q: char) -> Result<(Seq<char>, bool, int), Seq<char>> {
    match closing_quote(s, p + 1, q, '\0') {
        None => Err(eof_in_quote_error()),
        Some(c) => {
            let val = unescape(s.subrange(p + 1, c), q);
            let p2 = skip_ws(s, c + 1);
            let r2 = peek_at(s, p2);
            if !ends_section(r2) {
                Err(after_quote_error(r2))
            } else {
                Ok((val, ends_action(r2), p2 + width_at(s, p2)))
            }
        },
    }
}

/// One `key=value` or bare `value` section at `p`: key, value, whether it ends
/// the action, and the position after it.
pub open spec fn section_at(s: Seq<char>, p: int) -> Result<(Seq<char>, Seq<char>, bool, int), Seq<char>> {
    let p1 = skip_ws(s, p);
    let (key, p2) = key_at(s, p1);
    let r = peek_at(s, p2);
    if ends_section(r) {
        Ok((key, Seq::empty(), ends_action(r), p2 + width_at(s, p2)))
    } else if r == '"' || r == '\'' {
        match quoted_at(s, p2, r) {
            Ok((v, last, np)) => Ok((key, v, last, np)),
            Err(e) => Err(e),
        }
    } else {
        let (v, last, np) = value_at(s, p2);
        Ok((key, v, last, np))
    }
}

/// The key that a section without an explicit key stands for.
pub open spec fn implied_key(a: ActionView, section: int) -> Seq<char> {
    if section == 0 {
        "action"@
    } else if section == 1 {
        "label"@
    } else if section == 2 {
        if a.action == "view"@ || a.action == "http"@ {
            "url"@
        } else if a.action == "copy"@ {
            "value"@
        } else {
            Seq::empty()
        }
    } else {
        Seq::empty()
    }
}

pub open spec fn map_or_empty(m: Option<Map<Seq<char>, Seq<char>>>) -> Map<Seq<char>, Seq<char>> {
    match m {
        Some(x) => x,
        None => Map::empty(),
    }
}

pub open spec fn unknown_term_error(value: Seq<char>) -> Seq<char> {
    "Unknown term '"@ + value + "'"@
}

pub open spec fn unknown_key_error(key: Seq<char>) -> Seq<char> {
    "Unknown key '"@ + key + "'"@
}

/// Whether a `clear=` value turns clearing on.
pub open spec fn clear_flag(value: Seq<char>) -> bool {
    let l = lowercase_of(value);
    l == "true"@ || l == "yes"@ || l == "1"@
}

/// The action after setting section number `section` to `key`/`value`.
pub open spec fn populate(a: ActionView, section: int, key: Seq<char>, value: Seq<char>) -> Result<ActionView, Seq<char>> {
    let key = if key.len() == 0 {
        implied_key(a, section)
    } else {
        key
    };
    if key.len() == 0 {
        Err(unknown_term_error(value))
    } else if has_prefix(key, "headers."@) {
        Ok(ActionView { headers: Some(map_or_empty(a.headers).insert(key.skip(8), value)), ..a })
    } else if has_prefix(key, "extras."@) {
        Ok(ActionView { extras: Some(map_or_empty(a.extras).insert(key.skip(7), value)), ..a })
    } else {
        let lk = lowercase_of(key);
        if lk == "action"@ {
            Ok(ActionView { action: value, ..a })
        } else if lk == "label"@ {
            Ok(ActionView { label: value, ..a })
        } else if lk == "clear"@ {
            Ok(ActionView { clear: clear_flag(value), ..a })
        } else if lk == "url"@ {
            Ok(ActionView { url: Some(value), ..a })
        } else if lk == "method"@ {
            Ok(ActionView { method: Some(uppercase_of(value)), ..a })
        } else if lk == "body"@ {
            Ok(ActionView { body: Some(value), ..a })
        } else if lk == "value"@ {
            Ok(ActionView { value: Some(value), ..a })
        } else if lk == "intent"@ {
            Ok(ActionView { intent: Some(value), ..a })
        } else {
            Err(unknown_key_error(key))
        }
    }
}

/// A `clear=` section sets only the clear flag, and sets it exactly when its
/// value, lower-cased, is `true`, `yes` or `1`; any other value clears it.
pub proof fn lemma_clear_section(a: ActionView, section: int, key: Seq<char>, value: Seq<char>)
    requires
        key.len() > 0,
        !has_prefix(key, "headers."@),
        !has_prefix(key, "extras."@),
        lowercase_of(key) == "clear"@,
    ensures
        populate(a, section, key, value) matches Ok(b) && b == (ActionView {
            clear: b.clear,
            ..a
        }) && (b.clear <==> (lowercase_of(value) == "true"@ || lowercase_of(value) == "yes"@
            || lowercase_of(value) == "1"@)),
        lowercase_of(value) == "true"@ ==> (populate(a, section, key, value) matches Ok(b) && b.clear),
{
    reveal_strlit("clear");
    reveal_strlit("action");
    reveal_strlit("label");
    assert("clear"@.len() == 5 && "action"@.len() == 6 && "label"@.len() == 5);
    assert("clear"@[0] != "label"@[0]);
}

/// Reading one action from `p` on, its sections numbered from `section`, into
/// `a`: the action and the position after it (and the spaces that follow).
pub open spec fn action_at(s: Seq<char>, p: int, section: int, a: ActionView) -> Result<(ActionView, int), Seq<char>>
    decreases s.len() + 1 - p,
{
    if p < 0 || p > s.len() {
        Err(Seq::empty())
    } else {
        match section_at(s, p) {
            Err(e) => Err(e),
            Ok((k, v, last, np)) => match populate(a, section, k, v) {
                Err(e) => Err(e),
                Ok(a2) => {
                    let p2 = skip_ws(s, np);
                    if last {
                        Ok((a2, p2))
                    } else {
                        proof {
                            lemma_section_progress(s, p);
                            lemma_skip_ws(s, np);
                        }
                        action_at(s, p2, section + 1, a2)
                    }
                },
            },
        }
    }
}

/// All actions from `p` to the end of input.
pub open spec fn actions_from(s: Seq<char>, p: int) -> Result<Seq<ActionView>, Seq<char>>
    decreases s.len() + 1 - p,
{
    if p < 0 || p >= s.len() {
        Ok(Seq::empty())
    } else {
        match action_at(s, p, 0, blank_action()) {
            Err(e) => Err(e),
            Ok((a, np)) => {
                proof {
                    lemma_action_progress(s, p, 0, blank_action());
                }
                let p2 = skip_ws(s, np);
                proof {
                    lemma_skip_ws(s, np);
                }
                match actions_from(s, p2) {
                    Ok(rest) => Ok(seq![a] + rest),
                    Err(e) => Err(e),
                }
            },
        }
    }
}

// ---------------------------------------------------------------------------
// Progress lemmas: every section and every action consumes input
// ---------------------------------------------------------------------------

pub proof fn lemma_section_end(s: Seq<char>, p: int)
    requires
        0 <= p <= s.len(),
    ensures
        p <= section_end(s, p) <= s.len(),
        forall|k: int| p <= k < section_end(s, p) ==> !ends_section(#[trigger] s[k]),
        section_end(s, p) < s.len() ==> ends_section(s[section_end(s, p)]),
    decreases s.len() - p,
{
    if p < s.len() && !ends_section(s[p]) {
        lemma_section_end(s, p + 1);
    }
}

pub proof fn lemma_closing_quote(s: Seq<char>, i: int, q: char, prev: char)
    requires
        0 <= i,
    ensures
        closing_quote(s, i, q, prev) matches Some(c) ==> i <= c < s.len() && s[c] == q,
    decreases s.len() - i,
{
    if !(i >= s.len() || s[i] == '\0') && !(s[i] == q && prev != '\\') {
        lemma_closing_quote(s, i + 1, q, s[i]);
    }
}

pub proof fn lemma_section_progress(s: Seq<char>, p: int)
    requires
        0 <= p <= s.len(),
    ensures
        section_at(s, p) matches Ok((_k, _v, last, np)) ==> p <= np <= s.len() && ((p < s.len()
            || !last) ==> p < np),
{
    let p1 = skip_ws(s, p);
    lemma_skip_ws(s, p);
    let (key, p2) = key_at(s, p1);
    assert(p1 <= p2 <= s.len());
    let r = peek_at(s, p2);
    if ends_section(r) {
    } else if r == '"' || r == '\'' {
        lemma_closing_quote(s, p2 + 1, r, '\0');
        match closing_quote(s, p2 + 1, r, '\0') {
            Some(c) => {
                lemma_skip_ws(s, c + 1);
            },
            None => {},
        }
    } else {
        lemma_section_end(s, p2);
    }
}

pub proof fn lemma_action_progress(s: Seq<char>, p: int, section: int, a: ActionView)
    ensures
        action_at(s, p, section, a) matches Ok((_b, np)) ==> p <= np <= s.len() && (p < s.len()
            ==> p < np),
    decreases s.len() + 1 - p,
{
    if 0 <= p <= s.len() {
        lemma_section_progress(s, p);
        match section_at(s, p) {
            Err(_) => {},
            Ok((k, v, last, np)) => {
                lemma_skip_ws(s, np);
                match populate(a, section, k, v) {
                    Err(_) => {},
                    Ok(a2) => {
                        if !last {
                            lemma_action_progress(s, skip_ws(s, np), section + 1, a2);
                        }
                    },
                }
            },
        }
    }
}

// ---------------------------------------------------------------------------
// The parser
// ---------------------------------------------------------------------------

struct ActionParser {
    input: Vec<char>,
    pos: usize,
}

impl ActionParser {
    fn new(input: Vec<char>) -> (r: Self)
        ensures
            r.input@ == input@,
            r.pos == 0,
    {
        ActionParser { input, pos: 0 }
    }

    fn eof(&self) -> (r: bool)
        ensures
            r == (self.pos >= self.input.len()),
    {
        self.pos >= self.input.len()
    }

    fn peek(&self) -> (r: (char, usize))
        ensures
            r.0 == peek_at(self.input@, self.pos as int),
            r.1 == width_at(self.input@, self.pos as int),
    {
        if self.eof() {
            return ('\0', 0);
        }
        (self.input[self.pos], 1)
    }

    fn is_section_end(&self, c: char) -> (r: bool)
        ensures
            r == ends_section(c),
    {
        c == '\0' || c == ';' || c == ','
    }

    fn is_last_section(&self, c: char) -> (r: bool)
        ensures
            r == ends_action(c),
    {
        c == '\0' || c == ';'
    }

    fn slurp_spaces(&mut self)
        requires
            old(self).pos <= old(self).input.len() + 1,
        ensures
            final(self).input == old(self).input,
            final(self).pos == skip_ws(old(self).input@, old(self).pos as int),
    {
        let ghost start = self.pos as int;
        while self.pos < self.input.len() && is_whitespace(self.input[self.pos])
            invariant
                self.input == old(self).input,
                start <= self.pos <= self.input.len() + 1,
                skip_ws(self.input@, start) == skip_ws(self.input@, self.pos as int),
            decreases self.input.len() + 1 - self.pos,
        {
            self.pos = self.pos + 1;
        }
    }

    fn parse_key(&mut self) -> (r: String)
        requires
            old(self).pos <= old(self).input.len(),
        ensures
            final(self).input == old(self).input,
            (r@, final(self).pos as int) == key_at(old(self).input@, old(self).pos as int),
    {
        let rest = slice_to_vec(&self.input, self.pos, self.input.len());
        let text = string_of(&rest);
        assert(text@ == self.input@.skip(self.pos as int));
        match regex_captures(r"^([-.\w]+)\s*=\s*", text.as_str()) {
            Some(groups) => {
                if groups.len() >= 2 {
                    match (&groups[0], &groups[1]) {
                        (Some(full), Some(key)) => {
                            let full_len = chars_of(full.as_str()).len();
                            self.pos = self.pos + full_len;
                            let k = chars_of(key.as_str());
                            return string_of(&k);
                        },
                        _ => {},
                    }
                }
                String::new()
            },
            None => String::new(),
        }
    }

    fn parse_value(&mut self) -> (r: (String, bool))
        requires
            old(self).pos <= old(self).input.len(),
        ensures
            final(self).input == old(self).input,
            (r.0@, r.1, final(self).pos as int) == value_at(
                old(self).input@,
                old(self).pos as int,
            ),
    {
        let start = self.pos;
        proof {
            lemma_section_end(self.input@, start as int);
        }
        loop
            invariant
                self.input == old(self).input,
                start == old(self).pos,
                start <= self.pos <= self.input.len(),
                section_end(self.input@, start as int) == section_end(
                    self.input@,
                    self.pos as int,
                ),
            decreases self.input.len() - self.pos,
        {
            let (r, w) = self.peek();
            if self.is_section_end(r) {
                let last = self.is_last_section(r);
                let v = trim_range(&self.input, start, self.pos);
                self.pos = self.pos + w;
                return (string_of(&v), last);
            }
            self.pos = self.pos + w;
        }
    }

    fn parse_quoted_value(&mut self, quote: char) -> (r: Result<(String, bool), String>)
        requires
            old(self).pos < old(self).input.len(),
            old(self).input@[old(self).pos as int] == quote,
        ensures
            final(self).input == old(self).input,
            match quoted_at(old(self).input@, old(self).pos as int, quote) {
                Ok((v, last, np)) => match r {
                    Ok((rv, rl)) => rv@ == v && rl == last && final(self).pos == np,
                    Err(_) => false,
                },
                Err(e) => r matches Err(m) && m@ == e,
            },
    {
        let ghost s = self.input@;
        let ghost p0 = self.pos as int;
        self.pos = self.pos + 1;
        let start = self.pos;
        let mut prev = '\0';
        loop
            invariant
                self.input == old(self).input,
                s == self.input@,
                p0 == old(self).pos,
                start == p0 + 1,
                start <= self.pos <= self.input.len(),
                closing_quote(s, start as int, quote, '\0') == closing_quote(
                    s,
                    self.pos as int,
                    quote,
                    prev,
                ),
            decreases self.input.len() - self.pos,
        {
            let (r, w) = self.peek();
            if r == '\0' {
                assert(closing_quote(s, self.pos as int, quote, prev) is None);
                let e = chars_of("Unexpected EOF in quoted string");
                return Err(string_of(&e));
            }
            if r == quote && prev != '\\' {
                assert(closing_quote(s, self.pos as int, quote, prev) == Some(self.pos as int));
                let inner = slice_to_vec(&self.input, start, self.pos);
                let val = unescape_chars(&inner, quote);
                let ghost close = self.pos as int;
                self.pos = self.pos + w;
                self.slurp_spaces();
                proof {
                    lemma_skip_ws(s, close + 1);
                }
                let (r2, w2) = self.peek();
                let last = self.is_last_section(r2);
                if !self.is_section_end(r2) {
                    let mut e = chars_of("Unexpected character '");
                    e.push(r2);
                    push_str(&mut e, "' after quoted string");
                    assert(e@ == after_quote_error(r2));
                    return Err(string_of(&e));
                }
                self.pos = self.pos + w2;
                return Ok((string_of(&val), last));
            }
            prev = r;
            self.pos = self.pos + w;
        }
    }

    fn parse_section(&mut self) -> (r: Result<(String, String, bool), String>)
        requires
            old(self).pos <= old(self).input.len(),
        ensures
            final(self).input == old(self).input,
            match section_at(old(self).input@, old(self).pos as int) {
                Ok((k, v, last, np)) => match r {
                    Ok((rk, rv, rl)) => rk@ == k && rv@ == v && rl == last && final(self).pos == np,
                    Err(_) => false,
                },
                Err(e) => r matches Err(m) && m@ == e,
            },
    {
        proof {
            lemma_skip_ws(self.input@, self.pos as int);
        }
        self.slurp_spaces();
        let key = self.parse_key();
        let (r, _w) = self.peek();
        if self.is_section_end(r) {
            self.pos = self.pos + _w;
            return Ok((key, String::new(), self.is_last_section(r)));
        } else if r == '"' || r == '\'' {
            return match self.parse_quoted_value(r) {
                Ok((val, last)) => Ok((key, val, last)),
                Err(e) => Err(e),
            };
        }
        let (val, last) = self.parse_value();
        Ok((key, val, last))
    }

    fn populate_action(&self, a: &mut Action, section: usize, key: String, value: String) -> (r:
        Result<(), String>)
        ensures
            match populate(old(a)@, section as int, key@, value@) {
                Ok(b) => r is Ok && final(a)@ == b,
                Err(e) => r matches Err(m) && m@ == e,
            },
            final(a).id == old(a).id,
    {
        let ghost key0 = key@;
        let mut key = key;
        if key.as_str().unicode_len() == 0 {
            if section == 0 {
                key = lit("action");
            } else if section == 1 {
                key = lit("label");
            } else if section == 2 {
                if str_eq(a.action.as_str(), "view") || str_eq(a.action.as_str(), "http") {
                    key = lit("url");
                } else if str_eq(a.action.as_str(), "copy") {
                    key = lit("value");
                }
            }
        }
        assert(key@ == (if key0.len() == 0 {
            implied_key(old(a)@, section as int)
        } else {
            key0
        }));
        let kc = chars_of(key.as_str());
        if kc.len() == 0 {
            let mut e = chars_of("Unknown term '");
            push_str(&mut e, value.as_str());
            push_str(&mut e, "'");
            return Err(string_of(&e));
        }
        proof {
            reveal_strlit("headers.");
            reveal_strlit("extras.");
        }
        if starts_with_str(&kc, "headers.") {
            let hk = string_of(&slice_to_vec(&kc, 8, kc.len()));
            let mut h = match a.headers.take() {
                Some(m) => m,
                None => StringMap::new(),
            };
            h.insert(hk, value);
            a.headers = Some(h);
            return Ok(());
        } else if starts_with_str(&kc, "extras.") {
            let ek = string_of(&slice_to_vec(&kc, 7, kc.len()));
            let mut x = match a.extras.take() {
                Some(m) => m,
                None => StringMap::new(),
            };
            x.insert(ek, value);
            a.extras = Some(x);
            return Ok(());
        }
        let lk = to_lowercase(key.as_str());
        let lks = lk.as_str();
        if str_eq(lks, "action") {
            a.action = value;
        } else if str_eq(lks, "label") {
            a.label = value;
        } else if str_eq(lks, "clear") {
            let lval = to_lowercase(value.as_str());
            a.clear = str_eq(lval.as_str(), "true") || str_eq(lval.as_str(), "yes") || str_eq(
                lval.as_str(),
                "1",
            );
        } else if str_eq(lks, "url") {
            a.url = Some(value);
        } else if str_eq(lks, "method") {
            a.method = Some(to_uppercase(value.as_str()));
        } else if str_eq(lks, "body") {
            a.body = Some(value);
        } else if str_eq(lks, "value") {
            a.value = Some(value);
        } else if str_eq(lks, "intent") {
            a.intent = Some(value);
        } else {
            let mut e = chars_of("Unknown key '");
            push_str(&mut e, key.as_str());
            push_str(&mut e, "'");
            return Err(string_of(&e));
        }
        Ok(())
    }

    fn parse_action(&mut self) -> (r: Result<Action, String>)
        requires
            old(self).pos <= old(self).input.len(),
        ensures
            final(self).input == old(self).input,
            match action_at(old(self).input@, old(self).pos as int, 0, blank_action()) {
                Ok((b, np)) => r is Ok && r->Ok_0@ == b && final(self).pos == np && is_action_id(
                    r->Ok_0.id@,
                ),
                Err(e) => r matches Err(m) && m@ == e,
            },
    {
        let mut a = Action {
            id: new_action_id(),
            action: String::new(),
            label: String::new(),
            clear: false,
            url: None,
            method: None,
            headers: None,
            body: None,
            intent: None,
            extras: None,
            value: None,
        };
        let ghost id = a.id;
        assert(a@ == blank_action());
        let mut section: usize = 0;
        let ghost goal = action_at(self.input@, self.pos as int, 0, blank_action());
        loop
            invariant
                self.input == old(self).input,
                self.pos <= self.input.len(),
                section <= self.pos,
                a.id == id,
                is_action_id(id@),
                goal == action_at(old(self).input@, old(self).pos as int, 0, blank_action()),
                goal == action_at(self.input@, self.pos as int, section as int, a@),
            decreases self.input.len() + 1 - self.pos,
        {
            let ghost p = self.pos as int;
            proof {
                lemma_section_progress(self.input@, p);
            }
            let (key, value, last) = match self.parse_section() {
                Ok(t) => t,
                Err(e) => {
                    return Err(e);
                },
            };
            let ghost np = self.pos as int;
            match self.populate_action(&mut a, section, key, value) {
                Ok(()) => {},
                Err(e) => {
                    return Err(e);
                },
            }
            proof {
                lemma_skip_ws(self.input@, np);
            }
            self.slurp_spaces();
            if last {
                return Ok(a);
            }
            section = section + 1;
        }
    }

    fn parse(&mut self) -> (r: Result<Vec<Action>, String>)
        requires
            old(self).pos <= old(self).input.len(),
        ensures
            match actions_from(old(self).input@, old(self).pos as int) {
                Ok(v) => r is Ok && r->Ok_0@.map_values(|x: Action| x@) == v && forall|i: int|
                    0 <= i < r->Ok_0@.len() ==> is_action_id(#[trigger] r->Ok_0@[i].id@),
                Err(e) => r matches Err(m) && m@ == e,
            },
    {
        let mut actions: Vec<Action> = Vec::new();
        let ghost goal = actions_from(self.input@, self.pos as int);
        while !self.eof()
            invariant
                self.input == old(self).input,
                self.pos <= self.input.len(),
                goal == actions_from(old(self).input@, old(self).pos as int),
                forall|i: int| 0 <= i < actions@.len() ==> is_action_id(#[trigger] actions@[i].id@),
                match actions_from(self.input@, self.pos as int) {
                    Ok(rest) => goal == Ok::<Seq<ActionView>, Seq<char>>(
                        actions@.map_values(|x: Action| x@) + rest,
                    ),
                    Err(e) => goal == Err::<Seq<ActionView>, Seq<char>>(e),
                },
            decreases self.input.len() + 1 - self.pos,
        {
            let ghost p = self.pos as int;
            proof {
                lemma_action_progress(self.input@, p, 0, blank_action());
            }
            let a = match self.parse_action() {
                Ok(a) => a,
                Err(e) => {
                    return Err(e);
                },
            };
            let ghost np = self.pos as int;
            let ghost before = actions@.map_values(|x: Action| x@);
            let ghost prev_actions = actions@;
            actions.push(a);
            assert(actions@.map_values(|x: Action| x@) == before.push(a@));
            assert forall|i: int| 0 <= i < actions@.len() implies is_action_id(
                #[trigger] actions@[i].id@,
            ) by {
                if i < prev_actions.len() {
                    assert(actions@[i] == prev_actions[i]);
                }
            }
            proof {
                lemma_skip_ws(self.input@, np);
            }
            self.slurp_spaces();
            proof {
                let s = self.input@;
                match actions_from(s, self.pos as int) {
                    Ok(rest) => {
                        assert(before + (seq![a@] + rest) == before.push(a@) + rest);
                    },
                    Err(_) => {},
                }
            }
        }
        assert(actions@.map_values(|x: Action| x@) + Seq::<ActionView>::empty() == actions@.map_values(
            |x: Action| x@,
        ));
        Ok(actions)
    }
}

/// Replaces each backslash-quote pair by the quote.
fn unescape_chars(t: &[char], q: char) -> (r: Vec<char>)
    ensures
        r@ == unescape(t@, q),
{
    let mut out: Vec<char> = Vec::new();
    let mut i: usize = 0;
    assert(t@.skip(0) == t@);
    assert(out@ + unescape(t@, q) == unescape(t@, q));
    while i < t.len()
        invariant
            i <= t.len(),
            out@ + unescape(t@.skip(i as int), q) == unescape(t@, q),
        decreases t.len() - i,
    {
        let ghost rest = t@.skip(i as int);
        if i + 1 < t.len() && t[i] == '\\' && t[i + 1] == q {
            assert(rest[0] == '\\' && rest[1] == q);
            assert(rest.skip(2) == t@.skip(i + 2));
            out.push(q);
            assert(out@ + unescape(t@.skip(i + 2), q) == (out@.drop_last() + seq![q])
                + unescape(rest.skip(2), q));
            i = i + 2;
        } else {
            assert(rest.drop_first() == t@.skip(i + 1));
            assert(rest[0] == t@[i as int]);
            out.push(t[i]);
            i = i + 1;
        }
    }
    assert(t@.skip(t.len() as int) == Seq::<char>::empty());
    assert(out@ + Seq::<char>::empty() == out@);
    out
}

/// What `parse_actions` found.
pub enum ParsedActions {
    /// A JSON array, trimmed, for the caller to deserialize.
    Json(String),
    /// Actions written in the compact grammar.
    Simple(Vec<Action>),
}

/// Whether the (trimmed) text is a JSON array.
pub open spec fn is_json_list(t: Seq<char>) -> bool {
    t.len() > 0 && t[0] == '['
}

/// Parses the value of an `Actions` header: a JSON array (handed back for
/// deserialization) or actions in the compact grammar.
pub fn parse_actions(s: &str) -> (r: Result<ParsedActions, String>)
    ensures
        is_json_list(trim(s@)) ==> (r matches Ok(ParsedActions::Json(j)) && j@ == trim(s@)),
        !is_json_list(trim(s@)) ==> match actions_from(trim(s@), 0) {
            Ok(v) => r matches Ok(ParsedActions::Simple(a)) && a@.map_values(|x: Action| x@) == v
                && forall|i: int| 0 <= i < a@.len() ==> is_action_id(#[trigger] a@[i].id@),
            Err(e) => r matches Err(m) && m@ == e,
        },
{
    let cs = chars_of(s);
    let t = trim_chars(&cs);
    if t.len() > 0 && t[0] == '[' {
        return Ok(ParsedActions::Json(string_of(&t)));
    }
    let mut parser = ActionParser::new(t);
    match parser.parse() {
        Ok(v) => Ok(ParsedActions::Simple(v)),
        Err(e) => Err(e),
    }
}

} // verus!
