//! SHA-256 digests and their lower-case hexadecimal rendering.

use vstd::prelude::*;
use sha2::Digest;

verus! {

/// The SHA-256 digest of a byte sequence, as computed by the `sha2` crate.
pub uninterp spec fn sha256(data: Seq<u8>) -> Seq<u8>;

/// Calls `sha2::Sha256::digest`. The contract claims that the result is the
/// SHA-256 digest of the input (named `sha256`) and that it is 32 bytes long,
/// as the algorithm fixes.
#[verifier::external_body]
pub(crate) fn sha256_digest(data: &[u8]) -> (digest: Vec<u8>)
    ensures
        digest@ == sha256(data@),
        digest@.len() == 32,
{
    sha2::Sha256::digest(data).to_vec()
}

/// The lower-case hexadecimal digit of a value below 16.
pub open spec fn spec_hex_digit(v: int) -> char {
    if v < 10 {
        ((v + 48) as u8) as char
    } else {
        ((v + 87) as u8) as char
    }
}

/// The lower-case hexadecimal rendering of bytes: two digits per byte, high
/// nibble first (what `format!("{:x}", digest)` prints).
pub open spec fn spec_hex_lower(bytes: Seq<u8>) -> Seq<char> {
    Seq::new(
        2 * bytes.len(),
        |i: int|
            if i % 2 == 0 {
                spec_hex_digit(bytes[i / 2] as int / 16)
            } else {
                spec_hex_digit(bytes[i / 2] as int % 16)
            },
    )
}

fn hex_digit(v: u8) -> (c: char)
    requires
        v < 16,
    ensures
        c == spec_hex_digit(v as int),
{
    if v < 10 {
        (v + 48) as char
    } else {
        (v + 87) as char
    }
}

/// Lower-case hexadecimal digits of `bytes`.
pub fn hex_lower_chars(bytes: &[u8]) -> (out: Vec<char>)
    requires
        bytes@.len() < usize::MAX / 2,
    ensures
        out@ == spec_hex_lower(bytes@),
{
    let mut out: Vec<char> = Vec::new();
    let n = bytes.len();
    for i in 0..n
        invariant
            n == bytes@.len(),
            n < usize::MAX / 2,
            out@.len() == 2 * i,
            forall|j: int| 0 <= j < 2 * i ==> out@[j] == #[trigger] spec_hex_lower(bytes@)[j],
    {
        let b = bytes[i];
        out.push(hex_digit(b / 16));
        out.push(hex_digit(b % 16));
        assert forall|j: int| 0 <= j < 2 * (i + 1) implies out@[j] == #[trigger] spec_hex_lower(
            bytes@,
        )[j] by {
            if j >= 2 * i {
                assert(j / 2 == i);
            }
        }
    }
    assert(out@ =~= spec_hex_lower(bytes@));
    out
}

} // verus!
