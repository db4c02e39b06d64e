//! Character-level text operations with their specifications.
//!
//! Strings are handled as sequences of Unicode scalar values (`Seq<char>`),
//! which is what `String`'s view is.

use vstd::prelude::*;

verus! {

// ---------------------------------------------------------------------------
// Conversions between `str`/`String` and character vectors
// ---------------------------------------------------------------------------

/// The characters of a string slice, in order.
pub fn chars_of(s: &str) -> (v: Vec<char>)
    ensures
        v@ == s@,
{
    let mut v: Vec<char> = Vec::new();
    for c in it: s.chars()
        invariant
            v@ == it.seq().take(it.index() as int),
            it.seq() == s@,
    {
        v.push(c);
    }
    v
}

/// Collects characters into a `String` (std's `FromIterator<char>`).
#[verifier::external_body]
pub fn string_of(v: &[char]) -> (s: String)
    ensures
        s@ == v@,
{
    v.iter().collect()
}

/// An owned copy of a string slice.
pub fn lit(s: &str) -> (r: String)
    ensures
        r@ == s@,
{
    string_of(&chars_of(s))
}

/// Whether two character slices hold the same characters.
pub fn chars_eq(a: &[char], b: &[char]) -> (r: bool)
    ensures
        r == (a@ == b@),
{
    if a.len() != b.len() {
        return false;
    }
    let mut i: usize = 0;
    while i < a.len()
        invariant
            a.len() == b.len(),
            i <= a.len(),
            a@.take(i as int) == b@.take(i as int),
        decreases a.len() - i,
    {
        if a[i] != b[i] {
            assert(a@[i as int] != b@[i as int]);
            return false;
        }
        assert(a@.take(i + 1) == a@.take(i as int).push(a@[i as int]));
        assert(b@.take(i + 1) == b@.take(i as int).push(b@[i as int]));
        i = i + 1;
    }
    assert(a@ == a@.take(a.len() as int));
    assert(b@ == b@.take(b.len() as int));
    true
}

/// Whether two strings are equal.
pub fn str_eq(a: &str, b: &str) -> (r: bool)
    ensures
        r == (a@ == b@),
{
    let va = chars_of(a);
    let vb = chars_of(b);
    chars_eq(&va, &vb)
}

// ---------------------------------------------------------------------------
// Prefixes, searching, slicing
// ---------------------------------------------------------------------------

/// `s` begins with `p`.
pub open spec fn has_prefix(s: Seq<char>, p: Seq<char>) -> bool {
    p.len() <= s.len() && s.take(p.len() as int) == p
}

pub fn starts_with(s: &[char], p: &[char]) -> (r: bool)
    ensures
        r == has_prefix(s@, p@),
{
    if p.len() > s.len() {
        return false;
    }
    let mut i: usize = 0;
    while i < p.len()
        invariant
            p.len() <= s.len(),
            i <= p.len(),
            s@.take(i as int) == p@.take(i as int),
        decreases p.len() - i,
    {
        if s[i] != p[i] {
            assert(s@.take(p.len() as int)[i as int] != p@[i as int]);
            return false;
        }
        assert(s@.take(i + 1) == s@.take(i as int).push(s@[i as int]));
        assert(p@.take(i + 1) == p@.take(i as int).push(p@[i as int]));
        i = i + 1;
    }
    assert(p@ == p@.take(p.len() as int));
    true
}

pub fn starts_with_str(s: &[char], p: &str) -> (r: bool)
    ensures
        r == has_prefix(s@, p@),
{
    let pv = chars_of(p);
    starts_with(s, &pv)
}

/// The index of the first occurrence of `c` in `s`, if any.
pub open spec fn first_index(s: Seq<char>, c: char) -> Option<int>
    decreases s.len(),
{
    if s.len() == 0 {
        None
    } else if s[0] == c {
        Some(0)
    } else {
        match first_index(s.drop_first(), c) {
            Some(i) => Some(i + 1),
            None => None,
        }
    }
}

pub proof fn lemma_first_index(s: Seq<char>, c: char)
    ensures
        match first_index(s, c) {
            Some(i) => 0 <= i < s.len() && s[i] == c && forall|j: int| 0 <= j < i ==> s[j] != c,
            None => forall|j: int| 0 <= j < s.len() ==> s[j] != c,
        },
    decreases s.len(),
{
    if s.len() > 0 {
        lemma_first_index(s.drop_first(), c);
        if s[0] != c {
            match first_index(s.drop_first(), c) {
                Some(i) => {
                    assert forall|j: int| 0 <= j < i + 1 implies s[j] != c by {
                        if j > 0 {
                            assert(s[j] == s.drop_first()[j - 1]);
                        }
                    }
                },
                None => {
                    assert forall|j: int| 0 <= j < s.len() implies s[j] != c by {
                        if j > 0 {
                            assert(s[j] == s.drop_first()[j - 1]);
                        }
                    }
                },
            }
        }
    }
}

/// The first index of `c`, characterized without recursion.
pub proof fn lemma_first_index_unique(s: Seq<char>, c: char, i: int)
    requires
        0 <= i < s.len(),
        s[i] == c,
        forall|j: int| 0 <= j < i ==> s[j] != c,
    ensures
        first_index(s, c) == Some(i),
{
    lemma_first_index(s, c);
    match first_index(s, c) {
        Some(k) => {
            if k < i {
                assert(s[k] != c);
            }
            if k > i {
                assert(s[i] != c);
            }
        },
        None => {
            assert(s[i] != c);
        },
    }
}

pub fn find_char(s: &[char], c: char) -> (r: Option<usize>)
    ensures
        match r {
            Some(i) => first_index(s@, c) == Some(i as int),
            None => first_index(s@, c) is None,
        },
{
    let mut i: usize = 0;
    while i < s.len()
        invariant
            i <= s.len(),
            forall|j: int| 0 <= j < i ==> s@[j] != c,
        decreases s.len() - i,
    {
        if s[i] == c {
            proof {
                lemma_first_index_unique(s@, c, i as int);
            }
            return Some(i);
        }
        i = i + 1;
    }
    proof {
        lemma_first_index(s@, c);
        if first_index(s@, c) is Some {
            let k = first_index(s@, c)->0;
            assert(s@[k] != c);
        }
    }
    None
}

/// A copy of `s[from..to]`.
pub fn slice_to_vec(s: &[char], from: usize, to: usize) -> (r: Vec<char>)
    requires
        from <= to <= s.len(),
    ensures
        r@ == s@.subrange(from as int, to as int),
{
    let mut r: Vec<char> = Vec::new();
    let mut i = from;
    while i < to
        invariant
            from <= i <= to <= s.len(),
            r@ == s@.subrange(from as int, i as int),
        decreases to - i,
    {
        r.push(s[i]);
        assert(s@.subrange(from as int, i + 1) == s@.subrange(from as int, i as int).push(s@[i as int]));
        i = i + 1;
    }
    r
}

/// `s` split at the first occurrence of `c` (std's `split_once` with a `char`).
pub open spec fn split_once(s: Seq<char>, c: char) -> Option<(Seq<char>, Seq<char>)> {
    match first_index(s, c) {
        Some(i) => Some((s.take(i), s.skip(i + 1))),
        None => None,
    }
}

pub fn split_once_char(s: &[char], c: char) -> (r: Option<(Vec<char>, Vec<char>)>)
    ensures
        match r {
            Some((a, b)) => split_once(s@, c) == Some((a@, b@)),
            None => split_once(s@, c) is None,
        },
{
    match find_char(s, c) {
        Some(i) => {
            proof {
                lemma_first_index(s@, c);
            }
            assert(i < s.len());
            let a = slice_to_vec(s, 0, i);
            let b = slice_to_vec(s, i + 1, s.len());
            assert(a@ == s@.take(i as int));
            assert(b@ == s@.skip(i + 1));
            Some((a, b))
        },
        None => None,
    }
}

// ---------------------------------------------------------------------------
// Whitespace and trimming
// ---------------------------------------------------------------------------

/// Unicode `White_Space` (the property that std's `char::is_whitespace` tests).
pub open spec fn is_ws(c: char) -> bool {
    let u = c as u32;
    ||| (0x9 <= u && u <= 0xD)
    ||| u == 0x20
    ||| u == 0x85
    ||| u == 0xA0
    ||| u == 0x1680
    ||| (0x2000 <= u && u <= 0x200A)
    ||| u == 0x2028
    ||| u == 0x2029
    ||| u == 0x202F
    ||| u == 0x205F
    ||| u == 0x3000
}

pub fn is_whitespace(c: char) -> (r: bool)
    ensures
        r == is_ws(c),
{
    let u = c as u32;
    (0x9 <= u && u <= 0xD) || u == 0x20 || u == 0x85 || u == 0xA0 || u == 0x1680 || (0x2000
        <= u && u <= 0x200A) || u == 0x2028 || u == 0x2029 || u == 0x202F || u == 0x205F || u
        == 0x3000
}

/// `s` without its leading whitespace.
pub open spec fn trim_start(s: Seq<char>) -> Seq<char>
    decreases s.len(),
{
    if s.len() > 0 && is_ws(s[0]) {
        trim_start(s.drop_first())
    } else {
        s
    }
}

/// `s` without its trailing whitespace.
pub open spec fn trim_end(s: Seq<char>) -> Seq<char>
    decreases s.len(),
{
    if s.len() > 0 && is_ws(s.last()) {
        trim_end(s.drop_last())
    } else {
        s
    }
}

/// `s` without leading and trailing whitespace (std's `str::trim`).
pub open spec fn trim(s: Seq<char>) -> Seq<char> {
    trim_end(trim_start(s))
}

proof fn lemma_trim_start_skip(s: Seq<char>, i: int)
    requires
        0 <= i <= s.len(),
        forall|j: int| 0 <= j < i ==> is_ws(s[j]),
    ensures
        trim_start(s) == trim_start(s.skip(i)),
    decreases i,
{
    if i > 0 {
        lemma_trim_start_skip(s.drop_first(), i - 1);
        assert(s.drop_first().skip(i - 1) == s.skip(i));
    } else {
        assert(s.skip(0) == s);
    }
}

proof fn lemma_trim_end_take(s: Seq<char>, k: int)
    requires
        0 <= k <= s.len(),
        forall|j: int| k <= j < s.len() ==> is_ws(s[j]),
    ensures
        trim_end(s) == trim_end(s.take(k)),
    decreases s.len() - k,
{
    if k < s.len() {
        assert(s.drop_last().take(k) == s.take(k));
        lemma_trim_end_take(s.drop_last(), k);
    } else {
        assert(s.take(k) == s);
    }
}

/// The trimmed part of `s[from..to]`.
pub fn trim_range(s: &[char], from: usize, to: usize) -> (r: Vec<char>)
    requires
        from <= to <= s.len(),
    ensures
        r@ == trim(s@.subrange(from as int, to as int)),
{
    let ghost t = s@.subrange(from as int, to as int);
    let mut a = from;
    while a < to && is_whitespace(s[a])
        invariant
            from <= a <= to <= s.len(),
            forall|j: int| from <= j < a ==> is_ws(s@[j]),
        decreases to - a,
    {
        a = a + 1;
    }
    proof {
        lemma_trim_start_skip(t, a - from);
        assert(t.skip(a - from) == s@.subrange(a as int, to as int));
    }
    let ghost u = s@.subrange(a as int, to as int);
    assert(a == to || !is_ws(u[0]));
    assert(trim_start(u) == u);
    let mut b = to;
    while b > a && is_whitespace(s[b - 1])
        invariant
            from <= a <= b <= to <= s.len(),
            forall|j: int| b <= j < to ==> is_ws(s@[j]),
        decreases b - a,
    {
        b = b - 1;
    }
    proof {
        lemma_trim_end_take(u, b - a);
        assert(u.take(b - a) == s@.subrange(a as int, b as int));
        let w = s@.subrange(a as int, b as int);
        assert(w.len() == 0 || !is_ws(w.last()));
    }
    slice_to_vec(s, a, b)
}

pub fn trim_chars(s: &[char]) -> (r: Vec<char>)
    ensures
        r@ == trim(s@),
{
    assert(s@.subrange(0, s.len() as int) == s@);
    trim_range(s, 0, s.len())
}

/// The index of the first non-whitespace character at or after `from`.
pub open spec fn skip_ws(s: Seq<char>, from: int) -> int
    decreases s.len() - from,
{
    if from < s.len() && is_ws(s[from]) {
        skip_ws(s, from + 1)
    } else {
        from
    }
}

pub proof fn lemma_skip_ws(s: Seq<char>, from: int)
    ensures
        from <= s.len() ==> from <= skip_ws(s, from) <= s.len(),
        from > s.len() ==> skip_ws(s, from) == from,
        skip_ws(s, from) < s.len() ==> !is_ws(s[skip_ws(s, from)]),
        forall|j: int| from <= j < skip_ws(s, from) ==> is_ws(s[j]),
    decreases s.len() - from,
{
    if from < s.len() && is_ws(s[from]) {
        lemma_skip_ws(s, from + 1);
    }
}

pub fn skip_whitespace(s: &[char], from: usize) -> (r: usize)
    requires
        from <= s.len(),
    ensures
        r == skip_ws(s@, from as int),
        from <= r <= s.len(),
{
    let mut i = from;
    while i < s.len() && is_whitespace(s[i])
        invariant
            from <= i <= s.len(),
            skip_ws(s@, from as int) == skip_ws(s@, i as int),
        decreases s.len() - i,
    {
        i = i + 1;
    }
    i
}

// ---------------------------------------------------------------------------
// Splitting and joining on a separator character
// ---------------------------------------------------------------------------

/// std's `str::split` on a `char`: the pieces between separators, empty ones
/// included; the empty string gives one empty piece.
pub open spec fn split(s: Seq<char>, c: char) -> Seq<Seq<char>>
    decreases s.len(),
{
    if s.len() == 0 {
        seq![Seq::<char>::empty()]
    } else {
        let p = split(s.drop_last(), c);
        if s.last() == c {
            p.push(Seq::<char>::empty())
        } else {
            p.update(p.len() - 1, p.last().push(s.last()))
        }
    }
}

pub proof fn lemma_split_nonempty(s: Seq<char>, c: char)
    ensures
        split(s, c).len() >= 1,
    decreases s.len(),
{
    if s.len() > 0 {
        lemma_split_nonempty(s.drop_last(), c);
    }
}

/// std's `[String]::join` with a one-character separator.
pub open spec fn join(p: Seq<Seq<char>>, c: char) -> Seq<char>
    decreases p.len(),
{
    if p.len() == 0 {
        Seq::empty()
    } else if p.len() == 1 {
        p[0]
    } else {
        join(p.drop_last(), c).push(c) + p.last()
    }
}

/// The pieces of `s` between occurrences of `c`.
pub fn split_chars(s: &[char], c: char) -> (r: Vec<Vec<char>>)
    ensures
        r@.map_values(|v: Vec<char>| v@) == split(s@, c),
{
    let mut pieces: Vec<Vec<char>> = Vec::new();
    let mut cur: Vec<char> = Vec::new();
    let mut i: usize = 0;
    while i < s.len()
        invariant
            i <= s.len(),
            pieces@.map_values(|v: Vec<char>| v@).push(cur@) == split(s@.take(i as int), c),
        decreases s.len() - i,
    {
        let ghost before = s@.take(i as int);
        assert(s@.take(i + 1).drop_last() == before);
        assert(s@.take(i + 1).last() == s@[i as int]);
        if s[i] == c {
            let done = cur;
            pieces.push(done);
            cur = Vec::new();
            assert(pieces@.map_values(|v: Vec<char>| v@) == split(before, c));
        } else {
            let ghost old_pieces = pieces@.map_values(|v: Vec<char>| v@);
            cur.push(s[i]);
            assert(old_pieces.push(cur@) == split(before, c).update(
                split(before, c).len() - 1,
                split(before, c).last().push(s@[i as int]),
            ));
        }
        i = i + 1;
    }
    pieces.push(cur);
    assert(s@.take(s.len() as int) == s@);
    pieces
}

/// `split(s, c)`, with every piece trimmed.
pub open spec fn split_trimmed(s: Seq<char>, c: char) -> Seq<Seq<char>> {
    split(s, c).map_values(|p: Seq<char>| trim(p))
}

/// Splits on `c` and trims each piece.
pub fn split_trim_strings(s: &[char], c: char) -> (r: Vec<String>)
    ensures
        r@.map_values(|x: String| x@) == split_trimmed(s@, c),
{
    let pieces = split_chars(s, c);
    let mut out: Vec<String> = Vec::new();
    let mut i: usize = 0;
    while i < pieces.len()
        invariant
            i <= pieces.len(),
            pieces@.map_values(|v: Vec<char>| v@) == split(s@, c),
            out@.map_values(|x: String| x@) == split(s@, c).take(i as int).map_values(
                |p: Seq<char>| trim(p),
            ),
        decreases pieces.len() - i,
    {
        let t = trim_chars(&pieces[i]);
        let st = string_of(&t);
        out.push(st);
        assert(split(s@, c).take(i + 1) == split(s@, c).take(i as int).push(split(s@, c)[i as int]));
        assert(split(s@, c).take(i + 1).map_values(|p: Seq<char>| trim(p)) == split(s@, c).take(
            i as int,
        ).map_values(|p: Seq<char>| trim(p)).push(trim(split(s@, c)[i as int])));
        i = i + 1;
    }
    assert(split(s@, c).take(pieces.len() as int) == split(s@, c));
    out
}

/// Splits on `c`, keeping each piece as is.
pub fn split_strings(s: &[char], c: char) -> (r: Vec<String>)
    ensures
        r@.map_values(|x: String| x@) == split(s@, c),
{
    let pieces = split_chars(s, c);
    let mut out: Vec<String> = Vec::new();
    let mut i: usize = 0;
    while i < pieces.len()
        invariant
            i <= pieces.len(),
            pieces@.map_values(|v: Vec<char>| v@) == split(s@, c),
            out@.map_values(|x: String| x@) == split(s@, c).take(i as int),
        decreases pieces.len() - i,
    {
        let st = string_of(&pieces[i]);
        out.push(st);
        assert(split(s@, c).take(i + 1) == split(s@, c).take(i as int).push(split(s@, c)[i as int]));
        i = i + 1;
    }
    assert(split(s@, c).take(pieces.len() as int) == split(s@, c));
    out
}

/// Appends the characters of `s` to `out`.
pub fn push_str(out: &mut Vec<char>, s: &str)
    ensures
        final(out)@ == old(out)@ + s@,
{
    let v = chars_of(s);
    let mut i: usize = 0;
    while i < v.len()
        invariant
            i <= v.len(),
            v@ == s@,
            out@ == old(out)@ + v@.take(i as int),
        decreases v.len() - i,
    {
        out.push(v[i]);
        assert(v@.take(i + 1) == v@.take(i as int).push(v@[i as int]));
        i = i + 1;
    }
    assert(v@.take(v.len() as int) == v@);
}

/// Appends the characters of `s` to `out`.
pub fn push_chars(out: &mut Vec<char>, s: &[char])
    ensures
        final(out)@ == old(out)@ + s@,
{
    let mut i: usize = 0;
    while i < s.len()
        invariant
            i <= s.len(),
            out@ == old(out)@ + s@.take(i as int),
        decreases s.len() - i,
    {
        out.push(s[i]);
        assert(s@.take(i + 1) == s@.take(i as int).push(s@[i as int]));
        i = i + 1;
    }
    assert(s@.take(s.len() as int) == s@);
}

/// Joins strings with a separator character.
pub fn join_strings(parts: &Vec<String>, c: char) -> (r: String)
    ensures
        r@ == join(parts@.map_values(|x: String| x@), c),
{
    let ghost p = parts@.map_values(|x: String| x@);
    let mut out: Vec<char> = Vec::new();
    let mut i: usize = 0;
    while i < parts.len()
        invariant
            i <= parts.len(),
            p == parts@.map_values(|x: String| x@),
            out@ == join(p.take(i as int), c),
        decreases parts.len() - i,
    {
        let ghost prev = out@;
        if i > 0 {
            out.push(c);
        }
        push_str(&mut out, parts[i].as_str());
        assert(p.take(i + 1).drop_last() == p.take(i as int));
        assert(p.take(i + 1).last() == parts@[i as int]@);
        if i == 0 {
            assert(p.take(1).len() == 1);
            assert(out@ == p.take(1)[0]);
        }
        i = i + 1;
    }
    assert(p.take(parts.len() as int) == p);
    string_of(&out)
}

/// Pieces that split back into themselves: at least one, none holding `c`.
pub open spec fn splittable(p: Seq<Seq<char>>, c: char) -> bool {
    &&& p.len() >= 1
    &&& forall|i: int, j: int| 0 <= i < p.len() && 0 <= j < p[i].len() ==> p[i][j] != c
}

proof fn lemma_split_append_plain(s: Seq<char>, t: Seq<char>, c: char)
    requires
        forall|j: int| 0 <= j < t.len() ==> t[j] != c,
    ensures
        split(s + t, c) == split(s, c).update(
            split(s, c).len() - 1,
            split(s, c).last() + t,
        ),
    decreases t.len(),
{
    lemma_split_nonempty(s, c);
    if t.len() == 0 {
        assert(s + t == s);
        assert(split(s, c).last() + t == split(s, c).last());
        assert(split(s, c).update(split(s, c).len() - 1, split(s, c).last()) == split(s, c));
    } else {
        let t0 = t.drop_last();
        lemma_split_append_plain(s, t0, c);
        let p = split(s, c);
        let q = split(s + t0, c);
        assert((s + t).drop_last() == s + t0);
        assert((s + t).last() == t.last());
        assert(t.last() == t[t.len() - 1]);
        assert(t.last() != c);
        assert((s + t).len() > 0);
        assert(split(s + t, c) == q.update(q.len() - 1, q.last().push(t.last())));
        assert(q.len() == p.len());
        assert(q.last() == p.last() + t0);
        assert((p.last() + t0).push(t.last()) == p.last() + t);
        assert(split(s + t, c) =~= p.update(p.len() - 1, p.last() + t));
    }
}

/// Splitting undoes joining, for pieces free of the separator.
pub proof fn lemma_split_join(p: Seq<Seq<char>>, c: char)
    requires
        splittable(p, c),
    ensures
        split(join(p, c), c) == p,
    decreases p.len(),
{
    if p.len() == 1 {
        lemma_split_append_plain(Seq::empty(), p[0], c);
        assert(Seq::<char>::empty() + p[0] == p[0]);
        assert(split(Seq::<char>::empty(), c) == seq![Seq::<char>::empty()]);
        assert(Seq::<char>::empty() + p[0] == p[0]);
        assert(p == seq![p[0]]);
    } else {
        let q = p.drop_last();
        assert forall|i: int, j: int| 0 <= i < q.len() && 0 <= j < q[i].len() implies q[i][j]
            != c by {
            assert(q[i] == p[i]);
        }
        lemma_split_join(q, c);
        let jq = join(q, c);
        let pre = jq.push(c);
        assert(pre.drop_last() == jq);
        assert(split(pre, c) == q.push(Seq::<char>::empty()));
        assert forall|j: int| 0 <= j < p.last().len() implies p.last()[j] != c by {
            assert(p.last() == p[p.len() - 1]);
        }
        lemma_split_append_plain(pre, p.last(), c);
        assert(Seq::<char>::empty() + p.last() == p.last());
        assert(q.push(Seq::<char>::empty()).update(q.len() as int, p.last()) == p);
    }
}

// ---------------------------------------------------------------------------
// Decimal numbers
// ---------------------------------------------------------------------------

pub open spec fn digit_char(d: int) -> char {
    if d == 0 {
        '0'
    } else if d == 1 {
        '1'
    } else if d == 2 {
        '2'
    } else if d == 3 {
        '3'
    } else if d == 4 {
        '4'
    } else if d == 5 {
        '5'
    } else if d == 6 {
        '6'
    } else if d == 7 {
        '7'
    } else if d == 8 {
        '8'
    } else {
        '9'
    }
}

fn digit_to_char(d: u64) -> (c: char)
    requires
        d < 10,
    ensures
        c == digit_char(d as int),
{
    if d == 0 {
        '0'
    } else if d == 1 {
        '1'
    } else if d == 2 {
        '2'
    } else if d == 3 {
        '3'
    } else if d == 4 {
        '4'
    } else if d == 5 {
        '5'
    } else if d == 6 {
        '6'
    } else if d == 7 {
        '7'
    } else if d == 8 {
        '8'
    } else {
        '9'
    }
}

pub open spec fn is_digit(c: char) -> bool {
    '0' <= c && c <= '9'
}

pub open spec fn digit_value(c: char) -> int {
    (c as int) - ('0' as int)
}

/// The decimal digits of `n`, without leading zeros.
pub open spec fn nat_digits(n: nat) -> Seq<char>
    decreases n,
{
    if n < 10 {
        seq![digit_char(n as int)]
    } else {
        nat_digits(n / 10).push(digit_char((n % 10) as int))
    }
}

/// The decimal form of `n`, as std's `to_string` writes it.
pub open spec fn int_decimal(n: int) -> Seq<char> {
    if n < 0 {
        seq!['-'] + nat_digits((-n) as nat)
    } else {
        nat_digits(n as nat)
    }
}

fn u64_digits(n: u64) -> (r: Vec<char>)
    ensures
        r@ == nat_digits(n as nat),
    decreases n,
{
    if n < 10 {
        let mut v: Vec<char> = Vec::new();
        v.push(digit_to_char(n));
        v
    } else {
        let mut v = u64_digits(n / 10);
        let d = n % 10;
        v.push(digit_to_char(d));
        v
    }
}

/// The decimal form of an unsigned number.
pub fn u64_to_decimal(n: u64) -> (r: Vec<char>)
    ensures
        r@ == int_decimal(n as int),
{
    u64_digits(n)
}

/// The decimal form of a signed number.
pub fn i64_to_decimal(n: i64) -> (r: Vec<char>)
    ensures
        r@ == int_decimal(n as int),
{
    if n < 0 {
        let m: u64 = if n == i64::MIN {
            9223372036854775808u64
        } else {
            (-n) as u64
        };
        let mut v: Vec<char> = Vec::new();
        v.push('-');
        let d = u64_digits(m);
        push_chars(&mut v, &d);
        assert(v@ == seq!['-'] + nat_digits(m as nat));
        v
    } else {
        u64_digits(n as u64)
    }
}

/// The decimal form of a signed number, as a `String`.
pub fn i64_to_string(n: i64) -> (r: String)
    ensures
        r@ == int_decimal(n as int),
{
    let v = i64_to_decimal(n);
    string_of(&v)
}

/// The value of a string of decimal digits.
pub open spec fn digits_value(s: Seq<char>) -> int
    decreases s.len(),
{
    if s.len() == 0 {
        0
    } else {
        digits_value(s.drop_last()) * 10 + digit_value(s.last())
    }
}

pub open spec fn all_digits(s: Seq<char>) -> bool {
    forall|i: int| 0 <= i < s.len() ==> is_digit(#[trigger] s[i])
}

/// std's `FromStr` for signed integers, before the range check: an optional
/// `+` or `-`, then one or more ASCII digits.
pub open spec fn parse_decimal(s: Seq<char>) -> Option<int> {
    let (neg, body) = if s.len() > 0 && (s[0] == '+' || s[0] == '-') {
        (s[0] == '-', s.drop_first())
    } else {
        (false, s)
    };
    if body.len() == 0 || !all_digits(body) {
        None
    } else if neg {
        Some(-digits_value(body))
    } else {
        Some(digits_value(body))
    }
}

/// std's `str::parse::<i64>()`.
pub open spec fn parse_i64(s: Seq<char>) -> Option<i64> {
    match parse_decimal(s) {
        Some(v) => if i64::MIN <= v <= i64::MAX {
            Some(v as i64)
        } else {
            None
        },
        None => None,
    }
}

/// std's `str::parse::<i32>()`.
pub open spec fn parse_i32(s: Seq<char>) -> Option<i32> {
    match parse_decimal(s) {
        Some(v) => if i32::MIN <= v <= i32::MAX {
            Some(v as i32)
        } else {
            None
        },
        None => None,
    }
}

proof fn lemma_digits_value_nonneg(s: Seq<char>)
    requires
        all_digits(s),
    ensures
        digits_value(s) >= 0,
    decreases s.len(),
{
    if s.len() > 0 {
        assert(all_digits(s.drop_last())) by {
            assert forall|i: int| 0 <= i < s.drop_last().len() implies is_digit(
                #[trigger] s.drop_last()[i],
            ) by {
                assert(s.drop_last()[i] == s[i]);
            }
        }
        lemma_digits_value_nonneg(s.drop_last());
        assert(is_digit(s[s.len() - 1]));
    }
}

const DIGIT_CAP: u64 = 9223372036854775809;

/// The signed value written in `s`, when it has the form std accepts and the
/// magnitude is at most 2^63 + 1 (beyond that the value is reported as `None`
/// together with a flag).
fn parse_signed(s: &[char]) -> (r: Option<(bool, u64)>)
    ensures
        match r {
            Some((neg, m)) => parse_decimal(s@) is Some && (if m < DIGIT_CAP {
                parse_decimal(s@) == Some(if neg {
                    -(m as int)
                } else {
                    m as int
                })
            } else {
                (neg && parse_decimal(s@)->0 <= -(DIGIT_CAP as int)) || (!neg && parse_decimal(
                    s@,
                )->0 >= DIGIT_CAP)
            }),
            None => parse_decimal(s@) is None,
        },
{
    let mut start: usize = 0;
    let mut neg = false;
    if s.len() > 0 && (s[0] == '+' || s[0] == '-') {
        neg = s[0] == '-';
        start = 1;
    }
    let ghost body = s@.skip(start as int);
    assert(s@.skip(0) == s@);
    assert(start == 0 ==> body == s@);
    assert(start == 1 ==> body == s@.drop_first());
    if start == s.len() {
        return None;
    }
    let mut acc: u64 = 0;
    let mut i = start;
    while i < s.len()
        invariant
            start <= i <= s.len(),
            start < s.len(),
            body == s@.skip(start as int),
            start == (if s@.len() > 0 && (s@[0] == '+' || s@[0] == '-') {
                1int
            } else {
                0int
            }),
            neg == (s@.len() > 0 && s@[0] == '-'),
            all_digits(s@.subrange(start as int, i as int)),
            acc == (if digits_value(s@.subrange(start as int, i as int)) < DIGIT_CAP {
                digits_value(s@.subrange(start as int, i as int))
            } else {
                DIGIT_CAP as int
            }),
        decreases s.len() - i,
    {
        let c = s[i];
        let ghost pre = s@.subrange(start as int, i as int);
        let ghost next = s@.subrange(start as int, i + 1);
        assert(next.drop_last() == pre);
        assert(next.last() == c);
        if !('0' <= c && c <= '9') {
            assert(body[i - start] == c);
            assert(!all_digits(body));
            assert(parse_decimal(s@) is None);
            return None;
        }
        proof {
            lemma_digits_value_nonneg(pre);
        }
        let d = (c as u32 - '0' as u32) as u64;
        assert(d == digit_value(c));
        assert(digits_value(next) == digits_value(pre) * 10 + d);
        if acc > DIGIT_CAP / 10 {
            acc = DIGIT_CAP;
        } else {
            acc = acc * 10 + d;
            if acc > DIGIT_CAP {
                acc = DIGIT_CAP;
            }
        }
        assert(all_digits(next)) by {
            assert forall|k: int| 0 <= k < next.len() implies is_digit(#[trigger] next[k]) by {
                if k < pre.len() {
                    assert(next[k] == pre[k]);
                }
            }
        }
        i = i + 1;
    }
    assert(s@.subrange(start as int, s.len() as int) == body);
    proof {
        lemma_digits_value_nonneg(body);
    }
    Some((neg, acc))
}

/// std's `str::parse::<i64>()`.
pub fn parse_i64_chars(s: &[char]) -> (r: Option<i64>)
    ensures
        r == parse_i64(s@),
{
    match parse_signed(s) {
        None => None,
        Some((neg, m)) => {
            if neg {
                if m <= 9223372036854775807u64 {
                    Some(-(m as i64))
                } else if m == 9223372036854775808u64 {
                    Some(i64::MIN)
                } else {
                    None
                }
            } else {
                if m <= 9223372036854775807u64 {
                    Some(m as i64)
                } else {
                    None
                }
            }
        },
    }
}

/// std's `str::parse::<i32>()`.
pub fn parse_i32_chars(s: &[char]) -> (r: Option<i32>)
    ensures
        r == parse_i32(s@),
{
    match parse_signed(s) {
        None => None,
        Some((neg, m)) => {
            if neg {
                if m <= 2147483648u64 {
                    Some((-(m as i64)) as i32)
                } else {
                    None
                }
            } else {
                if m <= 2147483647u64 {
                    Some(m as i32)
                } else {
                    None
                }
            }
        },
    }
}

} // verus!
