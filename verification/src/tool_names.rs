//! Protocol-safe tool names: the `^[a-zA-Z0-9_-]+$` sanitizer and the map
//! from presented (sanitized, de-duplicated) names back to advertised names.

use vstd::prelude::*;
use vstd::set_lib::{lemma_int_range, lemma_len_subset, lemma_map_size, set_int_range};
use crate::assoc::{lemma_map_of_index, spec_map_of};
use crate::text::{chars_of, is_ascii_alnum, spec_is_ascii_alnum, str_concat, string_from_chars};

verus! {

/// Characters allowed in a protocol tool name.
pub open spec fn spec_protocol_char(c: char) -> bool {
    spec_is_ascii_alnum(c) || c == '_' || c == '-'
}

/// A valid protocol tool name: every character matches `[a-zA-Z0-9_-]`.
pub open spec fn spec_is_valid_tool_name(s: Seq<char>) -> bool {
    forall|i: int| 0 <= i < s.len() ==> spec_protocol_char(#[trigger] s[i])
}

/// Each character outside `[a-zA-Z0-9_-]` becomes `_`.
pub open spec fn spec_protocol_sanitize(s: Seq<char>) -> Seq<char> {
    s.map_values(|c: char| if spec_protocol_char(c) { c } else { '_' })
}

/// Whether every character of `name` matches `[a-zA-Z0-9_-]`.
pub fn is_valid_tool_name(name: &str) -> (r: bool)
    ensures
        r == spec_is_valid_tool_name(name@),
{
    let chars = chars_of(name);
    let n = chars.len();
    for i in 0..n
        invariant
            n == chars@.len(),
            chars@ == name@,
            forall|j: int| 0 <= j < i ==> spec_protocol_char(#[trigger] chars@[j]),
    {
        let c = chars[i];
        if !(is_ascii_alnum(c) || c == '_' || c == '-') {
            return false;
        }
    }
    true
}

/// Sanitize a tool name to a safe identifier: `^[a-zA-Z0-9_-]+$` (each other
/// character becomes `_`).
pub fn sanitize_protocol_tool_name(name: &str) -> (res: String)
    ensures
        res@ == spec_protocol_sanitize(name@),
{
    let chars = chars_of(name);
    let mut out: Vec<char> = Vec::new();
    let n = chars.len();
    for i in 0..n
        invariant
            n == chars@.len(),
            chars@ == name@,
            out@ =~= spec_protocol_sanitize(chars@.take(i as int)),
    {
        let c = chars[i];
        if is_ascii_alnum(c) || c == '_' || c == '-' {
            out.push(c);
        } else {
            out.push('_');
        }
    }
    assert(chars@.take(n as int) =~= chars@);
    string_from_chars(&out)
}

/// The protocol sanitizer always yields a valid name of the same length.
pub proof fn lemma_protocol_sanitize_valid(s: Seq<char>)
    ensures
        spec_is_valid_tool_name(spec_protocol_sanitize(s)),
        spec_protocol_sanitize(s).len() == s.len(),
{
}

/// The protocol sanitizer leaves valid names unchanged, so applying it twice
/// is the same as applying it once.
pub proof fn lemma_protocol_sanitize_idempotent(s: Seq<char>)
    ensures
        spec_is_valid_tool_name(s) ==> spec_protocol_sanitize(s) == s,
        spec_protocol_sanitize(spec_protocol_sanitize(s)) == spec_protocol_sanitize(s),
{
    if spec_is_valid_tool_name(s) {
        assert(spec_protocol_sanitize(s) =~= s);
    }
    assert(spec_protocol_sanitize(spec_protocol_sanitize(s)) =~= spec_protocol_sanitize(s));
}


/// The decimal digit of a value below 10.
pub open spec fn spec_digit(v: nat) -> char {
    ((v + 48) as u8) as char
}

/// Decimal rendering of a natural number (what `format!("{}", n)` prints).
pub open spec fn spec_decimal(n: nat) -> Seq<char>
    decreases n,
{
    if n < 10 {
        seq![spec_digit(n)]
    } else {
        spec_decimal(n / 10).push(spec_digit(n % 10))
    }
}

proof fn lemma_decimal_len(n: nat)
    ensures
        spec_decimal(n).len() >= 1,
        n >= 10 ==> spec_decimal(n).len() >= 2,
    decreases n,
{
    if n >= 10 {
        lemma_decimal_len(n / 10);
    }
}

/// Distinct numbers have distinct decimal renderings.
proof fn lemma_decimal_injective(n: nat, m: nat)
    requires
        spec_decimal(n) == spec_decimal(m),
    ensures
        n == m,
    decreases n,
{
    lemma_decimal_len(n);
    lemma_decimal_len(m);
    if n >= 10 && m >= 10 {
        let a = spec_decimal(n);
        assert(a.drop_last() =~= spec_decimal(n / 10));
        assert(spec_decimal(m).drop_last() =~= spec_decimal(m / 10));
        lemma_decimal_injective(n / 10, m / 10);
        assert(a.last() == spec_digit(n % 10));
        assert(spec_decimal(m).last() == spec_digit(m % 10));
    } else if n < 10 && m < 10 {
        assert(spec_decimal(n)[0] == spec_digit(n));
        assert(spec_decimal(m)[0] == spec_digit(m));
    }
}

fn digit(v: usize) -> (c: char)
    requires
        v < 10,
    ensures
        c == spec_digit(v as nat),
{
    let b: u8 = v as u8;
    (b + 48) as char
}

/// Decimal digits of `n`.
fn decimal_chars(n: usize) -> (out: Vec<char>)
    ensures
        out@ == spec_decimal(n as nat),
    decreases n,
{
    if n < 10 {
        let mut v: Vec<char> = Vec::new();
        v.push(digit(n));
        assert(v@ =~= seq![spec_digit(n as nat)]);
        v
    } else {
        let mut v = decimal_chars(n / 10);
        v.push(digit(n % 10));
        v
    }
}

/// The `idx`-th alternative for a colliding name: `base`, `_`, then `idx` in
/// decimal.
pub open spec fn spec_candidate(base: Seq<char>, idx: nat) -> Seq<char> {
    base + seq!['_'] + spec_decimal(idx)
}

proof fn lemma_candidate_injective(base: Seq<char>, a: nat, b: nat)
    requires
        spec_candidate(base, a) == spec_candidate(base, b),
    ensures
        a == b,
{
    let ca = spec_candidate(base, a);
    let cb = spec_candidate(base, b);
    assert(ca.skip(base.len() + 1int) =~= spec_decimal(a));
    assert(cb.skip(base.len() + 1int) =~= spec_decimal(b));
    lemma_decimal_injective(a, b);
}

/// Whether `k` is the least index from 2 whose candidate is not in `used`.
pub open spec fn spec_is_first_free(base: Seq<char>, used: Set<Seq<char>>, k: nat) -> bool {
    &&& k >= 2
    &&& !used.contains(spec_candidate(base, k))
    &&& forall|j: nat| 2 <= j < k ==> used.contains(#[trigger] spec_candidate(base, j))
}

/// The least index from 2 whose candidate is free.
pub open spec fn spec_first_free(base: Seq<char>, used: Set<Seq<char>>) -> nat {
    choose|k: nat| spec_is_first_free(base, used, k)
}

/// A finite set holds at most `used.len()` of the candidates `2..k`.
proof fn lemma_candidates_bounded(base: Seq<char>, used: Set<Seq<char>>, k: nat)
    requires
        used.finite(),
        k >= 2,
        forall|j: nat| 2 <= j < k ==> used.contains(#[trigger] spec_candidate(base, j)),
    ensures
        k - 2 <= used.len(),
{
    let range = set_int_range(2, k as int);
    lemma_int_range(2, k as int);
    let f = |i: int| spec_candidate(base, i as nat);
    let img = range.map(f);
    assert(vstd::relations::injective_on(f, range)) by {
        assert forall|x: int, y: int| range.contains(x) && range.contains(y) && #[trigger] f(x) == #[trigger] f(y) implies x == y by {
            lemma_candidate_injective(base, x as nat, y as nat);
        }
    }
    lemma_map_size(range, img, f);
    assert(img.subset_of(used)) by {
        assert forall|c: Seq<char>| img.contains(c) implies used.contains(c) by {
            let i = choose|i: int| range.contains(i) && f(i) == c;
            assert(used.contains(spec_candidate(base, i as nat)));
        }
    }
    lemma_len_subset(img, used);
}

proof fn lemma_first_free_from(base: Seq<char>, used: Set<Seq<char>>, k: nat)
    requires
        used.finite(),
        k >= 2,
        forall|j: nat| 2 <= j < k ==> used.contains(#[trigger] spec_candidate(base, j)),
    ensures
        exists|m: nat| spec_is_first_free(base, used, m),
    decreases used.len() + 2 - k,
{
    lemma_candidates_bounded(base, used, k);
    if used.contains(spec_candidate(base, k)) {
        assert forall|j: nat| 2 <= j < k + 1 implies used.contains(#[trigger] spec_candidate(base, j)) by {
            if j == k {
            }
        }
        lemma_candidates_bounded(base, used, k + 1);
        lemma_first_free_from(base, used, k + 1);
    } else {
        assert(spec_is_first_free(base, used, k));
    }
}

/// Some candidate is always free for a finite set of used names.
proof fn lemma_first_free_exists(base: Seq<char>, used: Set<Seq<char>>)
    requires
        used.finite(),
    ensures
        spec_is_first_free(base, used, spec_first_free(base, used)),
{
    lemma_first_free_from(base, used, 2);
}


/// Map from the names presented to callers to the names the server
/// advertised.
pub struct ToolNameMap {
    keys: Vec<String>,
    vals: Vec<String>,
}

impl ToolNameMap {
    pub closed spec fn key_views(&self) -> Seq<Seq<char>> {
        self.keys@.map_values(|s: String| s@)
    }

    pub closed spec fn val_views(&self) -> Seq<Seq<char>> {
        self.vals@.map_values(|s: String| s@)
    }

    /// Well-formedness: one value per key and no key twice.
    pub closed spec fn wf(&self) -> bool {
        &&& self.keys@.len() == self.vals@.len()
        &&& self.key_views().no_duplicates()
    }

    /// Number of recorded names.
    pub closed spec fn size(&self) -> nat {
        self.keys@.len()
    }

    pub closed spec fn view(&self) -> Map<Seq<char>, Seq<char>> {
        spec_map_of(self.key_views(), self.val_views())
    }

    pub fn new() -> (m: Self)
        ensures
            m.wf(),
            m.view() == Map::<Seq<char>, Seq<char>>::empty(),
            m.size() == 0,
    {
        let m = ToolNameMap { keys: Vec::new(), vals: Vec::new() };
        assert(m.key_views() =~= Seq::empty());
        m
    }

    proof fn lemma_view(&self)
        requires
            self.wf(),
        ensures
            self.view().dom() == self.key_views().to_set(),
            self.view().dom().finite(),
            self.view().dom().len() <= self.keys@.len(),
            forall|i: int| 0 <= i < self.keys@.len() ==> #[trigger] self.view()[self.keys@[i]@] == self.vals@[i]@,
    {
        lemma_map_of_index(self.key_views(), self.val_views());
        self.key_views().lemma_cardinality_of_set();
        assert forall|i: int| 0 <= i < self.keys@.len() implies #[trigger] self.view()[self.keys@[i]@] == self.vals@[i]@ by {
            assert(self.key_views()[i] == self.keys@[i]@);
        }
    }

    /// Position of `name` among the keys, if present.
    fn position(&self, name: &String) -> (r: Option<usize>)
        requires
            self.wf(),
        ensures
            match r {
                Some(i) => i < self.keys@.len() && self.keys@[i as int]@ == name@,
                None => !self.view().dom().contains(name@),
            },
    {
        proof {
            self.lemma_view();
        }
        let n = self.keys.len();
        for i in 0..n
            invariant
                n == self.keys@.len(),
                self.wf(),
                self.view().dom() == self.key_views().to_set(),
                forall|j: int| 0 <= j < i ==> self.keys@[j]@ != name@,
        {
            if self.keys[i] == *name {
                return Some(i);
            }
        }
        proof {
            if self.key_views().to_set().contains(name@) {
                let j = choose|j: int| 0 <= j < self.key_views().len() && self.key_views()[j] == name@;
                assert(self.keys@[j]@ == name@);
            }
        }
        None
    }

    /// The advertised name behind a presented name, if one was recorded.
    pub fn lookup(&self, name: &String) -> (r: Option<String>)
        requires
            self.wf(),
        ensures
            match r {
                Some(v) => self.view().dom().contains(name@) && v@ == self.view()[name@],
                None => !self.view().dom().contains(name@),
            },
    {
        proof {
            self.lemma_view();
        }
        match self.position(name) {
            Some(i) => {
                assert(self.key_views().to_set().contains(self.key_views()[i as int]));
                Some(self.vals[i].clone())
            },
            None => None,
        }
    }

    fn contains(&self, name: &String) -> (r: bool)
        requires
            self.wf(),
        ensures
            r == self.view().dom().contains(name@),
    {
        proof {
            self.lemma_view();
        }
        match self.position(name) {
            Some(i) => {
                assert(self.key_views().to_set().contains(self.key_views()[i as int]));
                true
            },
            None => false,
        }
    }

    /// Records `key -> val`; the key must be new.
    fn insert_new(&mut self, key: String, val: String)
        requires
            old(self).wf(),
            !old(self).view().dom().contains(key@),
        ensures
            final(self).wf(),
            final(self).view() == old(self).view().insert(key@, val@),
            final(self).size() == old(self).size() + 1,
    {
        proof {
            old(self).lemma_view();
        }
        let ghost k = key@;
        let ghost v = val@;
        self.keys.push(key);
        self.vals.push(val);
        assert(self.key_views() =~= old(self).key_views().push(k));
        assert(self.val_views() =~= old(self).val_views().push(v));
        assert(self.key_views().drop_last() =~= old(self).key_views());
        assert(self.val_views().drop_last() =~= old(self).val_views());
        assert forall|i: int, j: int| 0 <= i < j < self.key_views().len() implies self.key_views()[i] != self.key_views()[j] by {
            if j == self.key_views().len() - 1 {
                assert(old(self).key_views().to_set().contains(old(self).key_views()[i]));
            }
        }
    }
}

/// The sanitized name of an advertised name, `_` when nothing is left.
pub open spec fn spec_base_name(advertised: Seq<char>) -> Seq<char> {
    let s = spec_protocol_sanitize(advertised);
    if s.len() == 0 {
        seq!['_']
    } else {
        s
    }
}

/// The name presented for `advertised` given the names already recorded in
/// `m`: its sanitized name, unless that name already stands for another
/// advertised name, in which case the first free `name_2`, `name_3`, ...
pub open spec fn spec_name_for(m: Map<Seq<char>, Seq<char>>, advertised: Seq<char>) -> Seq<char> {
    let s = spec_base_name(advertised);
    if m.contains_key(s) && m[s] != advertised {
        spec_candidate(s, spec_first_free(s, m.dom()))
    } else {
        s
    }
}

/// The map recorded after presenting `advertised_names` in order.
pub open spec fn spec_assign(advertised_names: Seq<Seq<char>>) -> Map<Seq<char>, Seq<char>>
    decreases advertised_names.len(),
{
    if advertised_names.len() == 0 {
        Map::empty()
    } else {
        let m = spec_assign(advertised_names.drop_last());
        m.insert(spec_name_for(m, advertised_names.last()), advertised_names.last())
    }
}

/// The names presented for `advertised_names`, in order.
pub open spec fn spec_assigned_names(advertised_names: Seq<Seq<char>>) -> Seq<Seq<char>> {
    Seq::new(
        advertised_names.len(),
        |i: int| spec_name_for(spec_assign(advertised_names.take(i)), advertised_names[i]),
    )
}

fn candidate_name(base: &Vec<char>, idx: usize) -> (c: String)
    ensures
        c@ == spec_candidate(base@, idx as nat),
{
    let mut chars: Vec<char> = base.clone();
    chars.push('_');
    let digits = decimal_chars(idx);
    let n = digits.len();
    for i in 0..n
        invariant
            n == digits@.len(),
            chars@ =~= base@ + seq!['_'] + digits@.take(i as int),
    {
        chars.push(digits[i]);
        assert(digits@.take(i + 1) =~= digits@.take(i as int).push(digits@[i as int]));
    }
    assert(digits@.take(n as int) =~= digits@);
    string_from_chars(&chars)
}

impl ToolNameMap {
    /// Presents each advertised name: sanitized to `^[a-zA-Z0-9_-]+$`, `_`
    /// when empty, and suffixed `_2`, `_3`, ... when the sanitized name
    /// already stands for a different advertised name. The map is rebuilt
    /// from scratch and records each presented name with its advertised name.
    pub fn assign(&mut self, advertised_names: &Vec<String>) -> (names: Vec<String>)
        requires
            advertised_names@.len() < usize::MAX,
        ensures
            final(self).wf(),
            final(self).view() == spec_assign(advertised_names@.map_values(|s: String| s@)),
            names@.map_values(|s: String| s@) == spec_assigned_names(
                advertised_names@.map_values(|s: String| s@),
            ),
    {
        let ghost os = advertised_names@.map_values(|s: String| s@);
        *self = ToolNameMap::new();
        let mut names: Vec<String> = Vec::new();
        let n = advertised_names.len();
        for i in 0..n
            invariant
                n == advertised_names@.len(),
                n < usize::MAX,
                self.size() <= i,
                os == advertised_names@.map_values(|s: String| s@),
                self.wf(),
                self.view() == spec_assign(os.take(i as int)),
                names@.map_values(|s: String| s@) =~= spec_assigned_names(os.take(i as int)),
        {
            let ghost m = self.view();
            let advertised = &advertised_names[i];
            assert(os.take(i + 1).drop_last() =~= os.take(i as int));
            assert(os.take(i + 1).last() == advertised@);
            let sanitized0 = sanitize_protocol_tool_name(advertised.as_str());
            let base: String = if sanitized0.as_str().is_empty() {
                let mut u: Vec<char> = Vec::new();
                u.push('_');
                string_from_chars(&u)
            } else {
                sanitized0
            };
            proof {
            }
            assert(base@ == spec_base_name(advertised@));
            let existing = self.lookup(&base);
            let collides = match &existing {
                Some(e) => !(*e == *advertised),
                None => false,
            };
            let name: String = if collides {
                {
                    let base_chars = chars_of(base.as_str());
                    let mut idx: usize = 2;
                    proof {
                        self.lemma_view();
                    }
                    let mut cand = candidate_name(&base_chars, idx);
                    while self.contains(&cand)
                        invariant
                            self.wf(),
                            self.size() <= i,
                            i < n,
                            n < usize::MAX,
                            m == self.view(),
                            m.dom().finite(),
                            m.dom().len() <= self.keys@.len(),
                            2 <= idx,
                            base_chars@ == base@,
                            cand@ == spec_candidate(base@, idx as nat),
                            forall|j: nat| 2 <= j < idx ==> m.dom().contains(#[trigger] spec_candidate(base@, j)),
                        decreases self.keys@.len() + 2 - idx,
                    {
                        proof {
                            lemma_candidates_bounded(base@, m.dom(), (idx + 1) as nat);
                        }
                        idx = idx + 1;
                        cand = candidate_name(&base_chars, idx);
                    }
                    proof {
                        lemma_first_free_exists(base@, m.dom());
                        let k = spec_first_free(base@, m.dom());
                        assert(spec_is_first_free(base@, m.dom(), idx as nat));
                        if k < idx {
                            assert(m.dom().contains(spec_candidate(base@, k)));
                        } else if idx < k {
                            assert(m.dom().contains(spec_candidate(base@, idx as nat)));
                        }
                    }
                    cand
                }
            } else {
                base
            };
            assert(name@ == spec_name_for(m, advertised@));
            if !self.contains(&name) {
                self.insert_new(name.clone(), advertised.clone());
            } else {
                assert(self.view().insert(name@, advertised@) =~= self.view());
            }
            let ghost prev = names@.map_values(|s: String| s@);
            let ghost nv = name@;
            names.push(name);
            assert(names@.map_values(|s: String| s@) =~= prev.push(nv));
            proof {
                let a = spec_assigned_names(os.take(i + 1));
                let b = spec_assigned_names(os.take(i as int));
                assert forall|j: int| 0 <= j < i + 1 implies #[trigger] a[j] == prev.push(nv)[j] by {
                    assert(os.take(i + 1).take(j) =~= os.take(j));
                    if j < i {
                        assert(os.take(i as int).take(j) =~= os.take(j));
                        assert(a[j] == b[j]);
                    } else {
                        assert(os.take(i + 1).take(j) =~= os.take(i as int));
                    }
                }
            }
            assert(names@.map_values(|s: String| s@) =~= spec_assigned_names(os.take(i + 1)));
        }
        assert(os.take(n as int) =~= os);
        names
    }
}

proof fn lemma_assign_finite(os: Seq<Seq<char>>)
    ensures
        spec_assign(os).dom().finite(),
    decreases os.len(),
{
    if os.len() > 0 {
        lemma_assign_finite(os.drop_last());
    }
}

/// The name chosen for `advertised` either is new to `m` or already stands for
/// `advertised` itself.
proof fn lemma_name_for_fresh_or_same(m: Map<Seq<char>, Seq<char>>, advertised: Seq<char>)
    requires
        m.dom().finite(),
    ensures
        !m.contains_key(spec_name_for(m, advertised)) || m[spec_name_for(m, advertised)] == advertised,
{
    let s = spec_base_name(advertised);
    if m.contains_key(s) && m[s] != advertised {
        lemma_first_free_exists(s, m.dom());
    }
}

proof fn lemma_assign_step(os: Seq<Seq<char>>, k: int)
    requires
        0 <= k < os.len(),
    ensures
        spec_assign(os.take(k + 1)) == spec_assign(os.take(k)).insert(
            spec_assigned_names(os)[k],
            os[k],
        ),
{
    assert(os.take(k + 1).drop_last() =~= os.take(k));
    assert(os.take(k + 1).last() == os[k]);
}

proof fn lemma_assign_round_trip_upto(os: Seq<Seq<char>>, k: int)
    requires
        0 <= k <= os.len(),
    ensures
        forall|j: int|
            0 <= j < k ==> {
                &&& spec_assign(os.take(k)).contains_key(#[trigger] spec_assigned_names(os)[j])
                &&& spec_assign(os.take(k))[spec_assigned_names(os)[j]] == os[j]
            },
    decreases k,
{
    if k > 0 {
        lemma_assign_round_trip_upto(os, k - 1);
        lemma_assign_step(os, k - 1);
        let m = spec_assign(os.take(k - 1));
        lemma_assign_finite(os.take(k - 1));
        let nk = spec_assigned_names(os)[k - 1];
        lemma_name_for_fresh_or_same(m, os[k - 1]);
        assert forall|j: int| 0 <= j < k implies {
            &&& spec_assign(os.take(k)).contains_key(#[trigger] spec_assigned_names(os)[j])
            &&& spec_assign(os.take(k))[spec_assigned_names(os)[j]] == os[j]
        } by {
            if j < k - 1 {
                let nj = spec_assigned_names(os)[j];
                assert(m.contains_key(nj));
            }
        }
    }
}

/// Every presented name is recorded and leads back to the advertised name it
/// was presented for.
pub proof fn lemma_assign_round_trip(os: Seq<Seq<char>>)
    ensures
        forall|i: int|
            0 <= i < os.len() ==> {
                &&& spec_assign(os).contains_key(#[trigger] spec_assigned_names(os)[i])
                &&& spec_assign(os)[spec_assigned_names(os)[i]] == os[i]
            },
{
    lemma_assign_round_trip_upto(os, os.len() as int);
    assert(os.take(os.len() as int) =~= os);
}

/// Distinct advertised names are presented under distinct names.
pub proof fn lemma_assign_distinct(os: Seq<Seq<char>>, i: int, j: int)
    requires
        0 <= i < os.len(),
        0 <= j < os.len(),
        os[i] != os[j],
    ensures
        spec_assigned_names(os)[i] != spec_assigned_names(os)[j],
{
    lemma_assign_round_trip(os);
}

proof fn lemma_decimal_valid(n: nat)
    ensures
        spec_is_valid_tool_name(spec_decimal(n)),
    decreases n,
{
    if n >= 10 {
        lemma_decimal_valid(n / 10);
    }
}

/// Every presented name is a non-empty valid protocol tool name.
pub proof fn lemma_assigned_names_valid(os: Seq<Seq<char>>)
    ensures
        forall|i: int|
            0 <= i < os.len() ==> {
                &&& spec_is_valid_tool_name(#[trigger] spec_assigned_names(os)[i])
                &&& spec_assigned_names(os)[i].len() > 0
            },
{
    assert forall|i: int| 0 <= i < os.len() implies {
        &&& spec_is_valid_tool_name(#[trigger] spec_assigned_names(os)[i])
        &&& spec_assigned_names(os)[i].len() > 0
    } by {
        let m = spec_assign(os.take(i));
        let s = spec_base_name(os[i]);
        assert(spec_is_valid_tool_name(s));
        if m.contains_key(s) && m[s] != os[i] {
            let k = spec_first_free(s, m.dom());
            lemma_decimal_valid(k);
            let c = spec_candidate(s, k);
            assert forall|t: int| 0 <= t < c.len() implies spec_protocol_char(#[trigger] c[t]) by {
                if t < s.len() {
                    assert(c[t] == s[t]);
                } else if t > s.len() {
                    assert(c[t] == spec_decimal(k)[t - s.len() - 1]);
                }
            }
        }
    }
}

/// Names to try for a tool call: the advertised name behind `name` (or
/// `name` itself when none is recorded), then `name` when that differs.
pub struct ToolCallPlan {
    pub primary: String,
    pub fallback: Option<String>,
}

/// The name a call is first sent under.
pub open spec fn spec_primary_name(m: Map<Seq<char>, Seq<char>>, name: Seq<char>) -> Seq<char> {
    if m.contains_key(name) {
        m[name]
    } else {
        name
    }
}

impl ToolNameMap {
    /// Translates a presented name back to the advertised one; the presented
    /// name is kept as a second attempt when the two differ.
    pub fn plan_call(&self, name: &String) -> (plan: ToolCallPlan)
        requires
            self.wf(),
        ensures
            plan.primary@ == spec_primary_name(self.view(), name@),
            match plan.fallback {
                Some(f) => f@ == name@ && plan.primary@ != name@,
                None => plan.primary@ == name@,
            },
    {
        let primary = match self.lookup(name) {
            Some(advertised) => advertised,
            None => name.clone(),
        };
        let fallback = if primary == *name {
            None
        } else {
            Some(name.clone())
        };
        ToolCallPlan { primary, fallback }
    }
}

/// What a tool call does after its first attempt.
pub enum CallStep<R, E> {
    /// The call ends with this result.
    Done(Result<R, E>),
    /// The call is sent again under `name`; `first_error` is why the first
    /// attempt failed.
    Retry { name: String, first_error: E },
}

impl ToolCallPlan {
    /// A successful first attempt ends the call; a failed one is retried
    /// under the fallback name when the plan has one, and ends the call with
    /// its error otherwise.
    pub fn after_first_attempt<R, E>(&self, first: Result<R, E>) -> (step: CallStep<R, E>)
        ensures
            match first {
                Ok(v) => step == CallStep::<R, E>::Done(Ok(v)),
                Err(e) => match self.fallback {
                    Some(f) => step == CallStep::<R, E>::Retry { name: f, first_error: e },
                    None => step == CallStep::<R, E>::Done(Err(e)),
                },
            },
    {
        match first {
            Ok(v) => CallStep::Done(Ok(v)),
            Err(e) => match &self.fallback {
                Some(f) => CallStep::Retry { name: f.clone(), first_error: e },
                None => CallStep::Done(Err(e)),
            },
        }
    }
}

/// The error of a call whose attempt under the fallback name failed too.
pub open spec fn spec_fallback_message(first: Seq<char>, second: Seq<char>) -> Seq<char> {
    "first attempt failed: "@ + first + "; fallback failed: "@ + second
}

pub fn fallback_failure_message(first: &str, second: &str) -> (m: String)
    ensures
        m@ == spec_fallback_message(first@, second@),
{
    let a = str_concat("first attempt failed: ", first);
    let b = str_concat(a.as_str(), "; fallback failed: ");
    str_concat(b.as_str(), second)
}

/// The result of a call after its attempt under the fallback name: that
/// attempt's success, or an error naming both failures.
pub fn after_fallback<R>(first_error: &str, second: Result<R, String>) -> (r: Result<R, String>)
    ensures
        match second {
            Ok(v) => r == Ok::<R, String>(v),
            Err(e) => r matches Err(m) && m@ == spec_fallback_message(first_error@, e@),
        },
{
    match second {
        Ok(v) => Ok(v),
        Err(e) => Err(fallback_failure_message(first_error, e.as_str())),
    }
}

/// After names are assigned, a call under any presented name is first sent
/// under the advertised name it stands for.
pub proof fn lemma_call_after_assign_reaches_advertised(os: Seq<Seq<char>>, i: int)
    requires
        0 <= i < os.len(),
    ensures
        spec_primary_name(spec_assign(os), spec_assigned_names(os)[i]) == os[i],
{
    lemma_assign_round_trip(os);
}

} // verus!
