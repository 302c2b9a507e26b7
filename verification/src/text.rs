//! Character and string helpers with exact specifications.

use vstd::prelude::*;

verus! {

/// ASCII lowercase of one character; other characters are unchanged.
pub open spec fn spec_ascii_lower(c: char) -> char {
    if 'A' <= c && c <= 'Z' {
        ((c as u32) + 32) as char
    } else {
        c
    }
}

/// ASCII letters and digits.
pub open spec fn spec_is_ascii_alnum(c: char) -> bool {
    ('a' <= c && c <= 'z') || ('A' <= c && c <= 'Z') || ('0' <= c && c <= '9')
}

/// ASCII lowercase of every character of a sequence.
pub open spec fn spec_lower_seq(s: Seq<char>) -> Seq<char> {
    s.map_values(|c: char| spec_ascii_lower(c))
}

pub fn ascii_lower(c: char) -> (r: char)
    ensures
        r == spec_ascii_lower(c),
{
    if 'A' <= c && c <= 'Z' {
        let v: u8 = (c as u32 + 32) as u8;
        v as char
    } else {
        c
    }
}

pub fn is_ascii_alnum(c: char) -> (r: bool)
    ensures
        r == spec_is_ascii_alnum(c),
{
    ('a' <= c && c <= 'z') || ('A' <= c && c <= 'Z') || ('0' <= c && c <= '9')
}

/// Calls `String::push`: appends one character.
#[verifier::external_body]
pub(crate) fn push_char(s: &mut String, c: char)
    ensures
        final(s)@ == old(s)@.push(c),
{
    s.push(c);
}

/// Builds a `String` holding exactly the given characters.
pub fn string_from_chars(chars: &Vec<char>) -> (s: String)
    ensures
        s@ == chars@,
{
    let mut s = String::new();
    let n = chars.len();
    for i in 0..n
        invariant
            n == chars@.len(),
            s@ == chars@.take(i as int),
    {
        push_char(&mut s, chars[i]);
        assert(chars@.take(i + 1) =~= chars@.take(i as int).push(chars@[i as int]));
    }
    assert(chars@.take(n as int) =~= chars@);
    s
}

/// The characters of a string slice, in order.
pub fn chars_of(s: &str) -> (out: Vec<char>)
    ensures
        out@ == s@,
{
    let mut out: Vec<char> = Vec::new();
    for c in it: s.chars()
        invariant
            out@ == it.seq().take(it.index() as int),
            it.seq() == s@,
    {
        out.push(c);
    }
    out
}

/// Whether two strings are equal ignoring ASCII case.
pub open spec fn spec_eq_ignore_ascii_case(a: Seq<char>, b: Seq<char>) -> bool {
    spec_lower_seq(a) == spec_lower_seq(b)
}

/// `str::eq_ignore_ascii_case`.
pub fn eq_ignore_ascii_case(a: &str, b: &str) -> (r: bool)
    ensures
        r == spec_eq_ignore_ascii_case(a@, b@),
{
    let x = chars_of(a);
    let y = chars_of(b);
    eq_ignore_ascii_case_chars(&x, &y)
}

pub fn eq_ignore_ascii_case_chars(x: &Vec<char>, y: &Vec<char>) -> (r: bool)
    ensures
        r == spec_eq_ignore_ascii_case(x@, y@),
{
    if x.len() != y.len() {
        assert(spec_lower_seq(x@).len() != spec_lower_seq(y@).len());
        return false;
    }
    let n = x.len();
    for i in 0..n
        invariant
            n == x@.len(),
            n == y@.len(),
            forall|j: int| 0 <= j < i ==> spec_ascii_lower(#[trigger] x@[j]) == spec_ascii_lower(y@[j]),
    {
        if ascii_lower(x[i]) != ascii_lower(y[i]) {
            assert(spec_lower_seq(x@)[i as int] != spec_lower_seq(y@)[i as int]);
            return false;
        }
    }
    assert(spec_lower_seq(x@) =~= spec_lower_seq(y@));
    true
}

/// The characters of `a` followed by those of `b`.
pub fn str_concat(a: &str, b: &str) -> (s: String)
    ensures
        s@ == a@ + b@,
{
    let mut v = chars_of(a);
    let mut w = chars_of(b);
    v.append(&mut w);
    string_from_chars(&v)
}

/// Exact string equality.
pub fn str_eq(a: &str, b: &str) -> (r: bool)
    ensures
        r == (a@ == b@),
{
    let x = chars_of(a);
    let y = chars_of(b);
    if x.len() != y.len() {
        return false;
    }
    let n = x.len();
    for i in 0..n
        invariant
            n == x@.len(),
            n == y@.len(),
            x@ == a@,
            y@ == b@,
            forall|j: int| 0 <= j < i ==> x@[j] == y@[j],
    {
        if x[i] != y[i] {
            return false;
        }
    }
    assert(x@ =~= y@);
    true
}

/// `s` with `prefix` removed, when `s` starts with `prefix`.
pub open spec fn spec_strip_prefix(s: Seq<char>, prefix: Seq<char>) -> Option<Seq<char>> {
    if prefix.len() <= s.len() && s.take(prefix.len() as int) == prefix {
        Some(s.skip(prefix.len() as int))
    } else {
        None
    }
}

/// `str::strip_prefix`, returning the characters that follow.
pub fn strip_prefix(s: &str, prefix: &str) -> (r: Option<Vec<char>>)
    ensures
        match r {
            Some(rest) => spec_strip_prefix(s@, prefix@) == Some(rest@),
            None => spec_strip_prefix(s@, prefix@).is_none(),
        },
{
    let x = chars_of(s);
    let p = chars_of(prefix);
    let plen = p.len();
    if plen > x.len() {
        return None;
    }
    for i in 0..plen
        invariant
            plen == p@.len(),
            plen <= x@.len(),
            x@ == s@,
            p@ == prefix@,
            forall|j: int| 0 <= j < i ==> x@[j] == p@[j],
    {
        if x[i] != p[i] {
            assert(s@.take(plen as int)[i as int] != prefix@[i as int]);
            return None;
        }
    }
    assert(s@.take(plen as int) =~= prefix@);
    let mut rest: Vec<char> = Vec::new();
    let n = x.len();
    for k in plen..n
        invariant
            n == x@.len(),
            plen <= n,
            x@ == s@,
            rest@ =~= s@.subrange(plen as int, k as int),
    {
        rest.push(x[k]);
    }
    Some(rest)
}

/// The Unicode `White_Space` characters, which `str::trim` removes.
pub open spec fn spec_is_whitespace(c: char) -> bool {
    let v = c as u32;
    (0x09 <= v && v <= 0x0D) || v == 0x20 || v == 0x85 || v == 0xA0 || v == 0x1680 || (0x2000
        <= v && v <= 0x200A) || v == 0x2028 || v == 0x2029 || v == 0x202F || v == 0x205F || v
        == 0x3000
}

pub fn is_whitespace(c: char) -> (r: bool)
    ensures
        r == spec_is_whitespace(c),
{
    let v = c as u32;
    (0x09 <= v && v <= 0x0D) || v == 0x20 || v == 0x85 || v == 0xA0 || v == 0x1680 || (0x2000
        <= v && v <= 0x200A) || v == 0x2028 || v == 0x2029 || v == 0x202F || v == 0x205F || v
        == 0x3000
}

/// Drops leading whitespace.
pub open spec fn spec_trim_start(s: Seq<char>) -> Seq<char>
    decreases s.len(),
{
    if s.len() > 0 && spec_is_whitespace(s[0]) {
        spec_trim_start(s.drop_first())
    } else {
        s
    }
}

/// Drops trailing whitespace.
pub open spec fn spec_trim_end(s: Seq<char>) -> Seq<char>
    decreases s.len(),
{
    if s.len() > 0 && spec_is_whitespace(s.last()) {
        spec_trim_end(s.drop_last())
    } else {
        s
    }
}

/// `str::trim`: drops leading and trailing whitespace.
pub open spec fn spec_trim(s: Seq<char>) -> Seq<char> {
    spec_trim_end(spec_trim_start(s))
}

proof fn lemma_trim_start_skip(s: Seq<char>, k: int)
    requires
        0 <= k <= s.len(),
        forall|j: int| 0 <= j < k ==> spec_is_whitespace(#[trigger] s[j]),
    ensures
        spec_trim_start(s) == spec_trim_start(s.skip(k)),
    decreases k,
{
    if k > 0 {
        assert(s.drop_first().skip(k - 1) =~= s.skip(k));
        assert forall|j: int| 0 <= j < k - 1 implies spec_is_whitespace(#[trigger] s.drop_first()[j]) by {
            assert(s.drop_first()[j] == s[j + 1]);
        }
        lemma_trim_start_skip(s.drop_first(), k - 1);
    } else {
        assert(s.skip(0) =~= s);
    }
}

proof fn lemma_trim_end_take(s: Seq<char>, k: int)
    requires
        0 <= k <= s.len(),
        forall|j: int| k <= j < s.len() ==> spec_is_whitespace(#[trigger] s[j]),
    ensures
        spec_trim_end(s) == spec_trim_end(s.take(k)),
    decreases s.len() - k,
{
    if k < s.len() {
        assert(s.drop_last().take(k) =~= s.take(k));
        assert forall|j: int| k <= j < s.len() - 1 implies spec_is_whitespace(#[trigger] s.drop_last()[j]) by {
            assert(s.drop_last()[j] == s[j]);
        }
        lemma_trim_end_take(s.drop_last(), k);
    } else {
        assert(s.take(k) =~= s);
    }
}

/// The characters of `str::trim(s)`.
pub fn trim_chars(s: &str) -> (out: Vec<char>)
    ensures
        out@ == spec_trim(s@),
{
    let x = chars_of(s);
    let n = x.len();
    let mut start: usize = 0;
    while start < n && is_whitespace(x[start])
        invariant
            start <= n,
            n == x@.len(),
            x@ == s@,
            forall|j: int| 0 <= j < start ==> spec_is_whitespace(#[trigger] x@[j]),
        decreases n - start,
    {
        start = start + 1;
    }
    let ghost mid = x@.skip(start as int);
    proof {
        lemma_trim_start_skip(x@, start as int);
        if start < n {
            assert(mid[0] == x@[start as int]);
        }
    }
    assert(spec_trim_start(mid) == mid);
    let mut end: usize = n;
    while end > start && is_whitespace(x[end - 1])
        invariant
            start <= end <= n,
            n == x@.len(),
            forall|j: int| end <= j < n ==> spec_is_whitespace(#[trigger] x@[j]),
        decreases end,
    {
        end = end - 1;
    }
    proof {
        let m = end - start;
        assert forall|j: int| m <= j < mid.len() implies spec_is_whitespace(#[trigger] mid[j]) by {
            assert(mid[j] == x@[start + j]);
        }
        lemma_trim_end_take(mid, m as int);
        let t = mid.take(m as int);
        if m > 0 {
            assert(t.last() == x@[end - 1]);
        }
    }
    let mut out: Vec<char> = Vec::new();
    let mut k: usize = start;
    while k < end
        invariant
            start <= k <= end <= n,
            n == x@.len(),
            out@ =~= x@.subrange(start as int, k as int),
        decreases end - k,
    {
        out.push(x[k]);
        k = k + 1;
    }
    assert(out@ =~= mid.take((end - start) as int));
    out
}

/// Whether `str::trim` leaves nothing.
pub fn trim_is_empty(s: &str) -> (r: bool)
    ensures
        r == (spec_trim(s@).len() == 0),
{
    let t = trim_chars(s);
    t.len() == 0
}

} // verus!
