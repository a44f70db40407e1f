//! Fixed-size byte values (addresses, topics) and the two computations on
//! them that come from `alloy-primitives`: hex parsing and Keccak-256.
use std::str::FromStr;
use vstd::prelude::*;
use vstd::string::StringSliceAdditionalSpecFns;

verus! {

/// A 20-byte account address.
pub type Address = [u8; 20];

/// A 32-byte log topic (an event signature hash or an indexed argument).
pub type Topic = [u8; 32];

/// Compares two byte arrays of the same length.
pub fn same_bytes<const N: usize>(a: &[u8; N], b: &[u8; N]) -> (r: bool)
    ensures
        r == (a@ == b@),
{
    let mut i: usize = 0;
    while i < N
        invariant
            i <= N,
            a@.len() == N,
            b@.len() == N,
            forall|j: int| 0 <= j < i ==> a@[j] == b@[j],
        decreases N - i,
    {
        if a[i] != b[i] {
            return false;
        }
        i = i + 1;
    }
    assert(a@ =~= b@);
    true
}

/// The value of one ASCII hex digit (`0-9`, `a-f`, `A-F`), if it is one.
pub open spec fn hex_digit_value(b: u8) -> Option<u8> {
    if 48 <= b <= 57 {
        Some((b - 48) as u8)
    } else if 97 <= b <= 102 {
        Some((b - 87) as u8)
    } else if 65 <= b <= 70 {
        Some((b - 55) as u8)
    } else {
        None
    }
}

/// The input without a leading `0x` or `0X`.
pub open spec fn strip_hex_prefix(s: Seq<u8>) -> Seq<u8> {
    if s.len() >= 2 && s[0] == 48u8 && (s[1] == 120u8 || s[1] == 88u8) {
        s.skip(2)
    } else {
        s
    }
}

/// The byte whose two hex digits stand at `2 * i` and `2 * i + 1` of `d`.
pub open spec fn hex_pair_value(d: Seq<u8>, i: int) -> u8 {
    (hex_digit_value(d[2 * i])->0 * 16 + hex_digit_value(d[2 * i + 1])->0) as u8
}

/// What a hex address text denotes: after an optional `0x`/`0X`, exactly
/// forty hex digits, two per byte, high nibble first; `None` otherwise.
pub open spec fn hex_address(s: Seq<u8>) -> Option<Seq<u8>> {
    let d = strip_hex_prefix(s);
    if d.len() == 40 && forall|k: int| 0 <= k < 40 ==> (#[trigger] hex_digit_value(d[k])) is Some {
        Some(Seq::new(20, |i: int| hex_pair_value(d, i)))
    } else {
        None
    }
}

/// Parses an address written in hex with `alloy_primitives::Address::from_str`.
///
/// Trusted: the contract claims that `from_str` (which hex-decodes into a
/// 20-byte array after stripping one `0x`/`0X` prefix, mixed case allowed)
/// succeeds exactly on the texts that `hex_address` accepts, with the same bytes.
#[verifier::external_body]
pub(crate) fn parse_address(s: &str) -> (r: Option<Address>)
    ensures
        match r {
            Some(a) => hex_address(s.spec_bytes()) == Some(a@),
            None => hex_address(s.spec_bytes()) is None,
        },
{
    match alloy_primitives::Address::from_str(s) {
        Ok(a) => Some(a.0.0),
        Err(_) => None,
    }
}

/// The Keccak-256 digest of a byte string, as `alloy_primitives::keccak256`
/// computes it.
pub uninterp spec fn keccak256_digest(data: Seq<u8>) -> Seq<u8>;

/// Hashes bytes with `alloy_primitives::keccak256`.
///
/// Trusted: the contract only names the result (`keccak256_digest` of the
/// input bytes); the digest itself is not stated.
#[verifier::external_body]
pub(crate) fn keccak256(data: &[u8]) -> (h: Topic)
    ensures
        h@ == keccak256_digest(data@),
{
    alloy_primitives::keccak256(data).0
}

} // verus!
