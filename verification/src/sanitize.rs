//! Tool-name normalization: the shared sanitizer (lower-case, collapse,
//! clamp with a hash tail) and the protocol sanitizer (`^[a-zA-Z0-9_-]+$`).

use vstd::prelude::*;
use crate::digest::{hex_lower_chars, sha256, sha256_digest, spec_hex_lower};
use crate::text::{
    ascii_lower, chars_of, is_ascii_alnum, spec_ascii_lower, spec_is_ascii_alnum,
    string_from_chars,
};

verus! {

/// Longest sanitized name.
pub const MAX_TOOL_NAME_LEN: usize = 64;
/// Characters of the head kept when a name is clamped.
pub const CLAMPED_HEAD_LEN: usize = 55;
/// Hex characters of the digest kept when a name is clamped.
pub const HASH_TAIL_LEN: usize = 8;

/// Characters kept verbatim by the shared sanitizer (after lower-casing):
/// ASCII letters and digits, `_`, `-` and `.`.
pub open spec fn spec_keeps(c: char) -> bool {
    spec_is_ascii_alnum(c) || c == '_' || c == '-' || c == '.'
}

/// One step of the collapsing scan: keep an allowed character, turn the first
/// of a run of other characters into `-`, drop the rest of the run.
pub open spec fn spec_collapse_step(out: Seq<char>, last_dash: bool, c: char) -> (Seq<char>, bool) {
    let ch = spec_ascii_lower(c);
    if spec_keeps(ch) {
        (out.push(ch), false)
    } else if !last_dash {
        (out.push('-'), true)
    } else {
        (out, true)
    }
}

/// The scan over the remaining input `s`, from output `out`.
pub open spec fn spec_collapse_from(s: Seq<char>, out: Seq<char>, last_dash: bool) -> Seq<char>
    decreases s.len(),
{
    if s.len() == 0 {
        out
    } else {
        let (o2, l2) = spec_collapse_step(out, last_dash, s[0]);
        spec_collapse_from(s.drop_first(), o2, l2)
    }
}

pub open spec fn spec_collapse(s: Seq<char>) -> Seq<char> {
    spec_collapse_from(s, Seq::empty(), false)
}

/// Drops leading `-` characters.
pub open spec fn spec_trim_dash_start(s: Seq<char>) -> Seq<char>
    decreases s.len(),
{
    if s.len() > 0 && s[0] == '-' {
        spec_trim_dash_start(s.drop_first())
    } else {
        s
    }
}

/// Drops trailing `-` characters.
pub open spec fn spec_trim_dash_end(s: Seq<char>) -> Seq<char>
    decreases s.len(),
{
    if s.len() > 0 && s.last() == '-' {
        spec_trim_dash_end(s.drop_last())
    } else {
        s
    }
}

pub open spec fn spec_trim_dashes(s: Seq<char>) -> Seq<char> {
    spec_trim_dash_end(spec_trim_dash_start(s))
}

/// Bytes of a string of ASCII characters.
pub open spec fn spec_ascii_bytes(s: Seq<char>) -> Seq<u8> {
    s.map_values(|c: char| c as u8)
}

/// What `sanitize_tool_name` returns for the characters `name`.
pub open spec fn spec_sanitize_tool_name(name: Seq<char>) -> Seq<char> {
    let t = spec_trim_dashes(spec_collapse(name));
    if t.len() <= MAX_TOOL_NAME_LEN {
        t
    } else {
        t.subrange(0, CLAMPED_HEAD_LEN as int) + seq!['-'] + spec_hex_lower(
            sha256(spec_ascii_bytes(t)),
        ).subrange(0, HASH_TAIL_LEN as int)
    }
}

/// Collapsing scan over `chars`.
fn collapse(chars: &Vec<char>) -> (out: Vec<char>)
    ensures
        out@ == spec_collapse(chars@),
        out@.len() <= chars@.len(),
{
    let mut out: Vec<char> = Vec::new();
    let mut last_dash = false;
    let n = chars.len();
    let mut i: usize = 0;
    proof {
        assert(chars@.skip(0) =~= chars@);
    }
    while i < n
        invariant
            n == chars@.len(),
            i <= n,
            out@.len() <= i,
            spec_collapse_from(chars@.skip(i as int), out@, last_dash) == spec_collapse(chars@),
        decreases n - i,
    {
        let ghost rest = chars@.skip(i as int);
        let ch = ascii_lower(chars[i]);
        let ok = is_ascii_alnum(ch) || ch == '_' || ch == '-' || ch == '.';
        if ok {
            out.push(ch);
            last_dash = false;
        } else if !last_dash {
            out.push('-');
            last_dash = true;
        }
        assert(rest[0] == chars@[i as int]);
        assert(rest.drop_first() =~= chars@.skip(i + 1));
        i = i + 1;
    }
    assert(chars@.skip(i as int).len() == 0);
    out
}

proof fn lemma_trim_start_skip(s: Seq<char>, k: int)
    requires
        0 <= k <= s.len(),
        forall|j: int| 0 <= j < k ==> s[j] == '-',
    ensures
        spec_trim_dash_start(s) == spec_trim_dash_start(s.skip(k)),
    decreases k,
{
    if k > 0 {
        assert(s.drop_first().skip(k - 1) =~= s.skip(k));
        lemma_trim_start_skip(s.drop_first(), k - 1);
    } else {
        assert(s.skip(0) =~= s);
    }
}

proof fn lemma_trim_end_take(s: Seq<char>, k: int)
    requires
        0 <= k <= s.len(),
        forall|j: int| k <= j < s.len() ==> s[j] == '-',
    ensures
        spec_trim_dash_end(s) == spec_trim_dash_end(s.take(k)),
    decreases s.len() - k,
{
    if k < s.len() {
        assert(s.drop_last().take(k) =~= s.take(k));
        lemma_trim_end_take(s.drop_last(), k);
    } else {
        assert(s.take(k) =~= s);
    }
}

/// Removes leading and trailing `-` characters.
fn trim_dashes(s: &Vec<char>) -> (out: Vec<char>)
    ensures
        out@ == spec_trim_dashes(s@),
{
    let n = s.len();
    let mut start: usize = 0;
    while start < n && s[start] == '-'
        invariant
            start <= n,
            n == s@.len(),
            forall|j: int| 0 <= j < start ==> s@[j] == '-',
        decreases n - start,
    {
        start = start + 1;
    }
    let ghost mid = s@.skip(start as int);
    proof {
        lemma_trim_start_skip(s@, start as int);
        if start < n {
            assert(mid[0] == s@[start as int]);
        }
    }
    assert(spec_trim_dash_start(mid) == mid);
    let mut end: usize = n;
    while end > start && s[end - 1] == '-'
        invariant
            start <= end <= n,
            n == s@.len(),
            forall|j: int| end <= j < n ==> s@[j] == '-',
        decreases end,
    {
        end = end - 1;
    }
    proof {
        let m = end - start;
        assert forall|j: int| m <= j < mid.len() implies mid[j] == '-' by {
            assert(mid[j] == s@[start + j]);
        }
        lemma_trim_end_take(mid, m as int);
        let t = mid.take(m as int);
        if m > 0 {
            assert(t.last() == s@[end - 1]);
        }
    }
    let mut out: Vec<char> = Vec::new();
    let mut k: usize = start;
    while k < end
        invariant
            start <= k <= end <= n,
            n == s@.len(),
            out@ =~= s@.subrange(start as int, k as int),
        decreases end - k,
    {
        out.push(s[k]);
        k = k + 1;
    }
    assert(out@ =~= mid.take((end - start) as int));
    out
}

/// Normalize tool names and clamp length with a hash suffix:
/// lower-case; keep `[a-z0-9_-.]`; turn each run of other characters into
/// one `-`; trim `-` at both ends; a result over 64 characters keeps its
/// first 55, then `-` and the first 8 hex digits of the SHA-256 of the
/// trimmed name. The result is lower-case, starts and ends with no `-`, and
/// sanitizing it again gives it back unchanged.
pub fn sanitize_tool_name(name: &str) -> (res: String)
    ensures
        res@ == spec_sanitize_tool_name(name@),
        res@.len() <= MAX_TOOL_NAME_LEN,
        forall|i: int| 0 <= i < res@.len() ==> spec_normal_char(#[trigger] res@[i]),
        spec_is_normal(res@),
        spec_sanitize_tool_name(res@) == res@,
{
    let chars = chars_of(name);
    let collapsed = collapse(&chars);
    let t = trim_dashes(&collapsed);
    proof {
        lemma_trim_len(collapsed@);
    }
    if t.len() <= MAX_TOOL_NAME_LEN {
        proof {
            lemma_sanitized_shape_short(name@);
            lemma_trimmed_normal(name@);
            lemma_sanitize_keeps_normal_names(t@);
        }
        return string_from_chars(&t);
    }
    let mut bytes: Vec<u8> = Vec::new();
    let n = t.len();
    for i in 0..n
        invariant
            n == t@.len(),
            bytes@ =~= spec_ascii_bytes(t@.take(i as int)),
    {
        bytes.push(t[i] as u8);
        assert(t@.take(i + 1) =~= t@.take(i as int).push(t@[i as int]));
    }
    assert(t@.take(n as int) =~= t@);
    let digest = sha256_digest(bytes.as_slice());
    proof {
        lemma_sanitized_shape(name@);
        lemma_sanitized_normal(name@);
        lemma_sanitize_keeps_normal_names(spec_sanitize_tool_name(name@));
    }
    let hex = hex_lower_chars(digest.as_slice());
    let mut out: Vec<char> = Vec::new();
    for i in 0..CLAMPED_HEAD_LEN
        invariant
            n == t@.len(),
            n > MAX_TOOL_NAME_LEN,
            out@ =~= t@.subrange(0, i as int),
    {
        out.push(t[i]);
    }
    out.push('-');
    for i in 0..HASH_TAIL_LEN
        invariant
            hex@.len() == 64,
            out@ =~= t@.subrange(0, CLAMPED_HEAD_LEN as int) + seq!['-'] + hex@.subrange(0, i as int),
    {
        out.push(hex[i]);
    }
    string_from_chars(&out)
}

proof fn lemma_trim_start_len(s: Seq<char>)
    ensures
        spec_trim_dash_start(s).len() <= s.len(),
    decreases s.len(),
{
    if s.len() > 0 && s[0] == '-' {
        lemma_trim_start_len(s.drop_first());
    }
}

proof fn lemma_trim_end_len(s: Seq<char>)
    ensures
        spec_trim_dash_end(s).len() <= s.len(),
    decreases s.len(),
{
    if s.len() > 0 && s.last() == '-' {
        lemma_trim_end_len(s.drop_last());
    }
}

proof fn lemma_trim_len(s: Seq<char>)
    ensures
        spec_trim_dashes(s).len() <= s.len(),
{
    lemma_trim_start_len(s);
    lemma_trim_end_len(spec_trim_dash_start(s));
}

/// Characters of `[A-Za-z0-9_.-]`; `spec_normal_char` narrows them to the
/// lower-case ones a sanitized name is made of.
pub open spec fn spec_sanitized_char(c: char) -> bool {
    spec_keeps(c) || c == '-'
}

proof fn lemma_collapse_from_chars(s: Seq<char>, out: Seq<char>, last_dash: bool)
    requires
        forall|i: int| 0 <= i < out.len() ==> spec_sanitized_char(#[trigger] out[i]),
    ensures
        forall|i: int|
            0 <= i < spec_collapse_from(s, out, last_dash).len() ==> spec_sanitized_char(
                #[trigger] spec_collapse_from(s, out, last_dash)[i],
            ),
    decreases s.len(),
{
    if s.len() > 0 {
        let r = spec_collapse_step(out, last_dash, s[0]);
        let o2 = r.0;
        let l2 = r.1;
        assert forall|i: int| 0 <= i < o2.len() implies spec_sanitized_char(#[trigger] o2[i]) by {
            if i < out.len() {
                assert(o2[i] == out[i]);
            }
        }
        lemma_collapse_from_chars(s.drop_first(), o2, l2);
        assert(spec_collapse_from(s, out, last_dash) == spec_collapse_from(s.drop_first(), o2, l2));
    }
}

proof fn lemma_trim_start_sub(s: Seq<char>)
    ensures
        exists|k: int| 0 <= k <= s.len() && spec_trim_dash_start(s) == s.skip(k),
    decreases s.len(),
{
    if s.len() > 0 && s[0] == '-' {
        lemma_trim_start_sub(s.drop_first());
        let k = choose|k: int| 0 <= k <= s.drop_first().len() && spec_trim_dash_start(s.drop_first()) == s.drop_first().skip(k);
        assert(s.drop_first().skip(k) =~= s.skip(k + 1));
    } else {
        assert(s.skip(0) =~= s);
    }
}

proof fn lemma_trim_end_sub(s: Seq<char>)
    ensures
        exists|k: int| 0 <= k <= s.len() && spec_trim_dash_end(s) == s.take(k),
    decreases s.len(),
{
    if s.len() > 0 && s.last() == '-' {
        lemma_trim_end_sub(s.drop_last());
        let k = choose|k: int| 0 <= k <= s.drop_last().len() && spec_trim_dash_end(s.drop_last()) == s.drop_last().take(k);
        assert(s.drop_last().take(k) =~= s.take(k));
    } else {
        assert(s.take(s.len() as int) =~= s);
    }
}

proof fn lemma_trimmed_chars(name: Seq<char>)
    ensures
        forall|i: int|
            0 <= i < spec_trim_dashes(spec_collapse(name)).len() ==> spec_sanitized_char(
                #[trigger] spec_trim_dashes(spec_collapse(name))[i],
            ),
{
    let c = spec_collapse(name);
    lemma_collapse_from_chars(name, Seq::empty(), false);
    lemma_trim_start_sub(c);
    let k1 = choose|k: int| 0 <= k <= c.len() && spec_trim_dash_start(c) == c.skip(k);
    let ts = spec_trim_dash_start(c);
    lemma_trim_end_sub(ts);
    let k2 = choose|k: int| 0 <= k <= ts.len() && spec_trim_dash_end(ts) == ts.take(k);
    let t = spec_trim_dashes(c);
    assert forall|i: int| 0 <= i < t.len() implies spec_sanitized_char(#[trigger] t[i]) by {
        assert(t[i] == ts[i]);
        assert(ts[i] == c[i + k1]);
    }
}

proof fn lemma_sanitized_shape_short(name: Seq<char>)
    requires
        spec_trim_dashes(spec_collapse(name)).len() <= MAX_TOOL_NAME_LEN,
    ensures
        spec_sanitize_tool_name(name).len() <= MAX_TOOL_NAME_LEN,
        forall|i: int|
            0 <= i < spec_sanitize_tool_name(name).len() ==> spec_sanitized_char(
                #[trigger] spec_sanitize_tool_name(name)[i],
            ),
{
    lemma_trimmed_chars(name);
}

/// A sanitized name has at most 64 characters, each of `[a-z0-9_.-]`.
proof fn lemma_sanitized_shape(name: Seq<char>)
    requires
        sha256(spec_ascii_bytes(spec_trim_dashes(spec_collapse(name)))).len() == 32,
    ensures
        spec_sanitize_tool_name(name).len() <= MAX_TOOL_NAME_LEN,
        forall|i: int|
            0 <= i < spec_sanitize_tool_name(name).len() ==> spec_sanitized_char(
                #[trigger] spec_sanitize_tool_name(name)[i],
            ),
{
    lemma_trimmed_chars(name);
    let t = spec_trim_dashes(spec_collapse(name));
    if t.len() > MAX_TOOL_NAME_LEN {
        let h = spec_hex_lower(sha256(spec_ascii_bytes(t)));
        let r = spec_sanitize_tool_name(name);
        assert forall|i: int| 0 <= i < r.len() implies spec_sanitized_char(#[trigger] r[i]) by {
            if i < CLAMPED_HEAD_LEN {
                assert(r[i] == t[i]);
            } else if i > CLAMPED_HEAD_LEN {
                let j = i - CLAMPED_HEAD_LEN - 1;
                assert(r[i] == h[j]);
                let b = sha256(spec_ascii_bytes(t))[j / 2];
                if j % 2 == 0 {
                    assert(0 <= b as int / 16 < 16);
                } else {
                    assert(0 <= b as int % 16 < 16);
                }
            }
        }
    }
}

/// Characters of a sanitized name: lower-case ASCII letters, digits, `_`,
/// `.` and `-`.
pub open spec fn spec_normal_char(c: char) -> bool {
    spec_sanitized_char(c) && !('A' <= c && c <= 'Z')
}

pub open spec fn spec_all_normal(s: Seq<char>) -> bool {
    forall|i: int| 0 <= i < s.len() ==> spec_normal_char(#[trigger] s[i])
}

/// A normalized name: normal characters and no `-` at either end.
pub open spec fn spec_is_normal(s: Seq<char>) -> bool {
    &&& spec_all_normal(s)
    &&& s.len() > 0 ==> s[0] != '-' && s.last() != '-'
}

proof fn lemma_collapse_from_normal(s: Seq<char>, out: Seq<char>, last_dash: bool)
    requires
        spec_all_normal(out),
    ensures
        spec_all_normal(spec_collapse_from(s, out, last_dash)),
    decreases s.len(),
{
    if s.len() > 0 {
        let r = spec_collapse_step(out, last_dash, s[0]);
        let o2 = r.0;
        let l2 = r.1;
        assert forall|i: int| 0 <= i < o2.len() implies spec_normal_char(#[trigger] o2[i]) by {
            if i < out.len() {
                assert(o2[i] == out[i]);
            }
        }
        lemma_collapse_from_normal(s.drop_first(), o2, l2);
    }
}

proof fn lemma_trim_start_head(s: Seq<char>)
    ensures
        spec_trim_dash_start(s).len() > 0 ==> spec_trim_dash_start(s)[0] != '-',
    decreases s.len(),
{
    if s.len() > 0 && s[0] == '-' {
        lemma_trim_start_head(s.drop_first());
    }
}

proof fn lemma_trim_end_tail(s: Seq<char>)
    ensures
        spec_trim_dash_end(s).len() > 0 ==> spec_trim_dash_end(s).last() != '-',
    decreases s.len(),
{
    if s.len() > 0 && s.last() == '-' {
        lemma_trim_end_tail(s.drop_last());
    }
}

/// What the trimming leaves of a collapsed name is normalized.
proof fn lemma_trimmed_normal(name: Seq<char>)
    ensures
        spec_is_normal(spec_trim_dashes(spec_collapse(name))),
{
    let c = spec_collapse(name);
    lemma_collapse_from_normal(name, Seq::empty(), false);
    lemma_trim_start_sub(c);
    let k1 = choose|k: int| 0 <= k <= c.len() && spec_trim_dash_start(c) == c.skip(k);
    let ts = spec_trim_dash_start(c);
    lemma_trim_start_head(c);
    lemma_trim_end_sub(ts);
    let k2 = choose|k: int| 0 <= k <= ts.len() && spec_trim_dash_end(ts) == ts.take(k);
    lemma_trim_end_tail(ts);
    let t = spec_trim_dashes(c);
    assert forall|i: int| 0 <= i < t.len() implies spec_normal_char(#[trigger] t[i]) by {
        assert(t[i] == c[i + k1]);
    }
    if t.len() > 0 {
        assert(t[0] == ts[0]);
    }
}

/// A sanitized name is normalized, clamped or not.
proof fn lemma_sanitized_normal(name: Seq<char>)
    requires
        sha256(spec_ascii_bytes(spec_trim_dashes(spec_collapse(name)))).len() == 32,
    ensures
        spec_is_normal(spec_sanitize_tool_name(name)),
{
    lemma_trimmed_normal(name);
    let t = spec_trim_dashes(spec_collapse(name));
    if t.len() > MAX_TOOL_NAME_LEN {
        let h = spec_hex_lower(sha256(spec_ascii_bytes(t)));
        let r = spec_sanitize_tool_name(name);
        assert forall|i: int| 0 <= i < r.len() implies spec_normal_char(#[trigger] r[i]) by {
            if i < CLAMPED_HEAD_LEN {
                assert(r[i] == t[i]);
            } else if i > CLAMPED_HEAD_LEN {
                let j = i - CLAMPED_HEAD_LEN - 1;
                assert(r[i] == h[j]);
                let b = sha256(spec_ascii_bytes(t))[j / 2];
                if j % 2 == 0 {
                    assert(0 <= b as int / 16 < 16);
                } else {
                    assert(0 <= b as int % 16 < 16);
                }
            }
        }
        assert(r[0] == t[0]);
        let j = HASH_TAIL_LEN - 1;
        assert(r.last() == h[j as int]);
        let b = sha256(spec_ascii_bytes(t))[j / 2];
        assert(0 <= b as int % 16 < 16);
    }
}

proof fn lemma_collapse_normal_from(s: Seq<char>, i: int)
    requires
        spec_is_normal(s),
        0 <= i <= s.len(),
    ensures
        spec_collapse_from(s.skip(i), s.take(i), false) == s,
    decreases s.len() - i,
{
    if i == s.len() {
        assert(s.take(i) =~= s);
    } else {
        let c = s[i];
        assert(s.skip(i)[0] == c);
        assert(spec_normal_char(c));
        assert(spec_ascii_lower(c) == c);
        let r = spec_collapse_step(s.take(i), false, c);
        assert(r.0 =~= s.take(i + 1));
        assert(s.skip(i).drop_first() =~= s.skip(i + 1));
        lemma_collapse_normal_from(s, i + 1);
    }
}

/// A normalized name of at most 64 characters is its own sanitization.
pub proof fn lemma_sanitize_keeps_normal_names(s: Seq<char>)
    requires
        spec_is_normal(s),
        s.len() <= MAX_TOOL_NAME_LEN,
    ensures
        spec_sanitize_tool_name(s) == s,
{
    lemma_collapse_normal_from(s, 0);
    assert(s.skip(0) =~= s);
    assert(s.take(0) =~= Seq::<char>::empty());
    assert(spec_collapse(s) == s);
    assert(spec_trim_dash_start(s) == s);
    assert(spec_trim_dash_end(s) == s);
}

/// Sanitizing a name that was not clamped gives a normalized name, and
/// sanitizing that again changes nothing.
pub proof fn lemma_sanitize_idempotent_unclamped(name: Seq<char>)
    requires
        spec_trim_dashes(spec_collapse(name)).len() <= MAX_TOOL_NAME_LEN,
    ensures
        spec_is_normal(spec_sanitize_tool_name(name)),
        spec_sanitize_tool_name(spec_sanitize_tool_name(name)) == spec_sanitize_tool_name(name),
{
    lemma_trimmed_normal(name);
    lemma_sanitize_keeps_normal_names(spec_sanitize_tool_name(name));
}

} // verus!
