//! The environment handed to an MCP server child process: a minimal
//! forwarded baseline, overridden by the server's configured variables.

use vstd::prelude::*;
use crate::assoc::{lemma_map_of_index, spec_map_of};

verus! {

/// Names of the variables forwarded from the parent so the child stays
/// functional (arg0, PATH, temp, ...), per platform family.
pub open spec fn spec_base_env_keys(windows: bool) -> Seq<Seq<char>> {
    if windows {
        seq![
            "PATH"@,
            "PATHEXT"@,
            "COMSPEC"@,
            "SYSTEMROOT"@,
            "WINDIR"@,
            "USERNAME"@,
            "USERDOMAIN"@,
            "USERPROFILE"@,
            "TEMP"@,
            "TMP"@,
        ]
    } else {
        seq![
            "HOME"@,
            "LOGNAME"@,
            "PATH"@,
            "SHELL"@,
            "USER"@,
            "TMPDIR"@,
            "LANG"@,
            "LC_ALL"@,
            "TERM"@,
        ]
    }
}

pub fn base_env_keys(windows: bool) -> (keys: Vec<&'static str>)
    ensures
        keys@.map_values(|k: &str| k@) == spec_base_env_keys(windows),
{
    let keys = if windows {
        vec![
            "PATH",
            "PATHEXT",
            "COMSPEC",
            "SYSTEMROOT",
            "WINDIR",
            "USERNAME",
            "USERDOMAIN",
            "USERPROFILE",
            "TEMP",
            "TMP",
        ]
    } else {
        vec!["HOME", "LOGNAME", "PATH", "SHELL", "USER", "TMPDIR", "LANG", "LC_ALL", "TERM"]
    };
    assert(keys@.map_values(|k: &str| k@) =~= spec_base_env_keys(windows));
    keys
}

pub open spec fn pair_keys(v: Seq<(String, String)>) -> Seq<Seq<char>> {
    v.map_values(|p: (String, String)| p.0@)
}

pub open spec fn pair_vals(v: Seq<(String, String)>) -> Seq<Seq<char>> {
    v.map_values(|p: (String, String)| p.1@)
}

/// The map of a list of variables; a later entry wins over an earlier one
/// with the same name.
pub open spec fn spec_env_map(v: Seq<(String, String)>) -> Map<Seq<char>, Seq<char>> {
    spec_map_of(pair_keys(v), pair_vals(v))
}

proof fn lemma_env_map_push(v: Seq<(String, String)>, p: (String, String))
    ensures
        spec_env_map(v.push(p)) == spec_env_map(v).insert(p.0@, p.1@),
{
    assert(pair_keys(v.push(p)).drop_last() =~= pair_keys(v));
    assert(pair_vals(v.push(p)).drop_last() =~= pair_vals(v));
}

fn index_of(out: &Vec<(String, String)>, key: &String) -> (r: Option<usize>)
    ensures
        match r {
            Some(i) => i < out@.len() && out@[i as int].0@ == key@,
            None => forall|j: int| 0 <= j < out@.len() ==> out@[j].0@ != key@,
        },
{
    let n = out.len();
    for i in 0..n
        invariant
            n == out@.len(),
            forall|j: int| 0 <= j < i ==> out@[j].0@ != key@,
    {
        if out[i].0 == *key {
            return Some(i);
        }
    }
    None
}

/// Sets `key` to `val`, replacing an earlier value.
fn set_var(out: &mut Vec<(String, String)>, key: String, val: String)
    requires
        pair_keys(old(out)@).no_duplicates(),
    ensures
        pair_keys(final(out)@).no_duplicates(),
        spec_env_map(final(out)@) == spec_env_map(old(out)@).insert(key@, val@),
{
    let ghost o = out@;
    proof {
        lemma_map_of_index(pair_keys(o), pair_vals(o));
    }
    match index_of(out, &key) {
        Some(i) => {
            let ghost kv = key@;
            let ghost vv = val@;
            out.set(i, (key, val));
            let ghost n = out@;
            assert(pair_keys(n) =~= pair_keys(o));
            assert(pair_vals(n) =~= pair_vals(o).update(i as int, vv));
            proof {
                lemma_map_of_index(pair_keys(n), pair_vals(n));
                assert(spec_env_map(n).dom() =~= spec_env_map(o).insert(kv, vv).dom()) by {
                    assert(pair_keys(o)[i as int] == kv);
                    assert(pair_keys(o).to_set().contains(kv));
                }
                assert forall|x: Seq<char>| #[trigger] spec_env_map(n).dom().contains(x) implies spec_env_map(n)[x] == spec_env_map(o).insert(kv, vv)[x] by {
                    let j = choose|j: int| 0 <= j < pair_keys(n).len() && pair_keys(n)[j] == x;
                    assert(spec_env_map(n)[pair_keys(n)[j]] == pair_vals(n)[j]);
                    assert(spec_env_map(o)[pair_keys(o)[j]] == pair_vals(o)[j]);
                    if j != i {
                        assert(pair_keys(o)[j] != pair_keys(o)[i as int]);
                    }
                }
                assert(spec_env_map(n) =~= spec_env_map(o).insert(kv, vv));
            }
        },
        None => {
            let ghost p = (key, val);
            proof {
                assert(!pair_keys(o).contains(key@)) by {
                    if pair_keys(o).contains(key@) {
                        let j = choose|j: int| 0 <= j < pair_keys(o).len() && pair_keys(o)[j] == key@;
                        assert(o[j].0@ == key@);
                    }
                }
            }
            out.push((key, val));
            proof {
                lemma_env_map_push(o, p);
                assert(pair_keys(out@) =~= pair_keys(o).push(p.0@));
            }
        },
    }
}

/// The child's environment: the forwarded baseline variables, then the
/// configured ones, each overriding a baseline variable of the same name.
pub fn merge_env(base: Vec<(String, String)>, extra: Option<Vec<(String, String)>>) -> (merged: Vec<(String, String)>)
    ensures
        pair_keys(merged@).no_duplicates(),
        spec_env_map(merged@) == (match extra {
            Some(e) => spec_env_map(base@ + e@),
            None => spec_env_map(base@),
        }),
{
    let mut out: Vec<(String, String)> = Vec::new();
    let all: Vec<(String, String)> = match extra {
        Some(e) => {
            let mut b = base;
            let mut e2 = e;
            b.append(&mut e2);
            b
        },
        None => base,
    };
    let ghost a = all@;
    assert(spec_env_map(out@) =~= spec_env_map(a.take(0)));
    let n = all.len();
    for i in 0..n
        invariant
            n == a.len(),
            a == all@,
            pair_keys(out@).no_duplicates(),
            spec_env_map(out@) == spec_env_map(a.take(i as int)),
    {
        let k = all[i].0.clone();
        let v = all[i].1.clone();
        let ghost p = (k, v);
        set_var(&mut out, k, v);
        proof {
            assert(a.take(i + 1) =~= a.take(i as int).push(a[i as int]));
            lemma_env_map_push(a.take(i as int), p);
            lemma_env_map_push(a.take(i as int), a[i as int]);
        }
    }
    assert(a.take(n as int) =~= a);
    out
}

proof fn lemma_env_concat(b: Seq<(String, String)>, e: Seq<(String, String)>)
    ensures
        spec_env_map(b + e) == spec_env_map(b).union_prefer_right(spec_env_map(e)),
    decreases e.len(),
{
    if e.len() == 0 {
        assert(b + e =~= b);
        assert(spec_env_map(e) =~= Map::empty());
        assert(spec_env_map(b).union_prefer_right(spec_env_map(e)) =~= spec_env_map(b));
    } else {
        let e0 = e.drop_last();
        let p = e.last();
        assert(e0.push(p) =~= e);
        assert((b + e0).push(p) =~= b + e);
        lemma_env_concat(b, e0);
        lemma_env_map_push(b + e0, p);
        lemma_env_map_push(e0, p);
        assert(spec_env_map(b + e) =~= spec_env_map(b).union_prefer_right(spec_env_map(e)));
    }
}

/// A configured variable overrides the forwarded one of the same name; a
/// forwarded variable that is not configured keeps its value.
pub proof fn lemma_configured_env_overrides(base: Seq<(String, String)>, extra: Seq<(String, String)>, key: Seq<char>)
    ensures
        spec_env_map(extra).contains_key(key) ==> spec_env_map(base + extra).contains_key(key)
            && spec_env_map(base + extra)[key] == spec_env_map(extra)[key],
        !spec_env_map(extra).contains_key(key) && spec_env_map(base).contains_key(key)
            ==> spec_env_map(base + extra).contains_key(key) && spec_env_map(base + extra)[key]
            == spec_env_map(base)[key],
        !spec_env_map(extra).contains_key(key) && !spec_env_map(base).contains_key(key)
            ==> !spec_env_map(base + extra).contains_key(key),
{
    lemma_env_concat(base, extra);
}

} // verus!
