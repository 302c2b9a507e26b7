//! Names derived from the Codex home: the store key, the lock file, the
//! files of the file backend, and the hash that marks a keyring transaction.

use vstd::prelude::*;
use vstd::string::StringSliceAdditionalSpecFns;
use super::account_store::{AuthAccountStore, StoreView};
use crate::digest::{hex_lower_chars, sha256, sha256_digest, spec_hex_lower};
use crate::text::{chars_of, string_from_chars};

verus! {

/// File name of the auth document inside the Codex home.
pub const AUTH_FILE_NAME: &'static str = "auth.json";
/// File name of the keyring transaction marker inside the Codex home.
pub const TRANSACTION_FILE_NAME: &'static str = ".auth.json.transaction";
/// Keyring service under which the store is saved.
pub const KEYRING_SERVICE: &'static str = "Codex Auth";
/// Name of the secret under which the encrypted backend saves the store.
pub const CODEX_AUTH_SECRET_NAME: &'static str = "CODEX_AUTH";
/// Hex characters of the path digest kept in the store key.
pub const STORE_KEY_HEX_LEN: usize = 16;

/// The store key of a Codex home path: `cli|` and the first 16 hex digits of
/// the SHA-256 of the path's UTF-8 bytes.
pub open spec fn spec_store_key(home: Seq<char>) -> Seq<char> {
    "cli|"@ + spec_hex_lower(sha256(vstd::utf8::encode_utf8(home))).take(STORE_KEY_HEX_LEN as int)
}

fn append_chars(out: &mut Vec<char>, s: &str)
    ensures
        final(out)@ == old(out)@ + s@,
{
    let mut more = chars_of(s);
    out.append(&mut more);
}

/// Turns a Codex home path (as a lossily decoded string) into a stable,
/// short key string.
pub fn compute_store_key(codex_home: &str) -> (key: String)
    ensures
        key@ == spec_store_key(codex_home@),
{
    let digest = sha256_digest(codex_home.as_bytes());
    let hex = hex_lower_chars(digest.as_slice());
    let mut out: Vec<char> = Vec::new();
    append_chars(&mut out, "cli|");
    let ghost head = out@;
    for i in 0..STORE_KEY_HEX_LEN
        invariant
            hex@.len() == 64,
            head == "cli|"@,
            out@ =~= head + hex@.take(i as int),
    {
        out.push(hex[i]);
        assert(hex@.take(i + 1) =~= hex@.take(i as int).push(hex@[i as int]));
    }
    string_from_chars(&out)
}

/// `|` becomes `-`, other characters stay.
pub open spec fn spec_bar_to_dash(s: Seq<char>) -> Seq<char> {
    s.map_values(|c: char| if c == '|' { '-' } else { c })
}

/// File name of the lock that serializes storage access for a store key:
/// `.codex-auth-<key with | as ->.lock`.
pub open spec fn spec_lock_file_name(key: Seq<char>) -> Seq<char> {
    ".codex-auth-"@ + spec_bar_to_dash(key) + ".lock"@
}

pub fn lock_file_name(store_key: &str) -> (name: String)
    ensures
        name@ == spec_lock_file_name(store_key@),
{
    let key = chars_of(store_key);
    let mut out: Vec<char> = Vec::new();
    append_chars(&mut out, ".codex-auth-");
    let ghost head = out@;
    let n = key.len();
    for i in 0..n
        invariant
            n == key@.len(),
            head == ".codex-auth-"@,
            key@ == store_key@,
            out@ =~= head + spec_bar_to_dash(key@.take(i as int)),
    {
        let c = key[i];
        if c == '|' {
            out.push('-');
        } else {
            out.push(c);
        }
        assert(spec_bar_to_dash(key@.take(i + 1)) =~= spec_bar_to_dash(key@.take(i as int)).push(
            if c == '|' { '-' } else { c },
        ));
    }
    assert(key@.take(n as int) =~= key@);
    append_chars(&mut out, ".lock");
    string_from_chars(&out)
}

/// The store as hashed for a transaction marker: the pending flag cleared.
pub open spec fn spec_normalized(s: StoreView) -> StoreView {
    StoreView { pending_keyring_write: false, ..s }
}

pub fn normalized_for_hash(store: &AuthAccountStore) -> (r: AuthAccountStore)
    ensures
        r@ == spec_normalized(store@),
{
    let mut normalized = store.clone();
    normalized.pending_keyring_write = false;
    normalized
}

/// The marker hash of serialized bytes: all 64 lower-case hex digits of
/// their SHA-256.
pub open spec fn spec_store_hash(serialized: Seq<u8>) -> Seq<char> {
    spec_hex_lower(sha256(serialized))
}

/// Hash of the serialized normalized store, as written to the transaction
/// marker.
pub fn store_hash(serialized: &[u8]) -> (h: String)
    ensures
        h@ == spec_store_hash(serialized@),
        h@.len() == 64,
        forall|i: int| 0 <= i < h@.len() ==> spec_is_lower_hex(#[trigger] h@[i]),
{
    let digest = sha256_digest(serialized);
    let hex = hex_lower_chars(digest.as_slice());
    proof {
        let d = digest@;
        assert forall|i: int| 0 <= i < hex@.len() implies spec_is_lower_hex(#[trigger] hex@[i]) by {
            let b = d[i / 2];
            if i % 2 == 0 {
                assert(0 <= b as int / 16 < 16);
            } else {
                assert(0 <= b as int % 16 < 16);
            }
        }
    }
    string_from_chars(&hex)
}

/// Lower-case hexadecimal digits.
pub open spec fn spec_is_lower_hex(c: char) -> bool {
    ('0' <= c && c <= '9') || ('a' <= c && c <= 'f')
}

/// The marker of a store does not depend on its pending flag: two stores
/// that differ only there normalize to the same store, so under any
/// serialization they hash alike.
pub proof fn lemma_store_hash_ignores_pending(s: StoreView, pending: bool, serialize: spec_fn(StoreView) -> Seq<u8>)
    ensures
        spec_normalized(StoreView { pending_keyring_write: pending, ..s }) == spec_normalized(s),
        spec_store_hash(serialize(spec_normalized(StoreView { pending_keyring_write: pending, ..s })))
            == spec_store_hash(serialize(spec_normalized(s))),
{
}

} // verus!
