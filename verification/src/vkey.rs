//! Startup guard: the proving backend's verifying key must match the one
//! authorized in the destination contract, byte for byte. A mismatch is
//! fatal — any proof generated under the wrong key would be rejected by the
//! contract, or worse, accepted against a stale one.

use vstd::prelude::*;
use crate::errors::OperatorError;

verus! {

/// Hex digit, either case.
pub open spec fn is_hex_digit(c: u8) -> bool {
    (48 <= c <= 57) || (65 <= c <= 70) || (97 <= c <= 102)
}

/// Value of one hex digit.
pub open spec fn hex_digit_value(c: u8) -> int
    recommends
        is_hex_digit(c),
{
    if 48 <= c <= 57 {
        c - 48
    } else if 65 <= c <= 70 {
        c - 65 + 10
    } else {
        c - 97 + 10
    }
}

/// A byte string that hex-decodes: even length, hex digits throughout.
pub open spec fn is_hex_seq(s: Seq<u8>) -> bool {
    s.len() % 2 == 0 && forall|i: int| 0 <= i < s.len() ==> is_hex_digit(s[i])
}

/// The bytes a hex string decodes to, one byte per digit pair.
pub open spec fn spec_hex_decode(s: Seq<u8>) -> Seq<u8>
    recommends
        is_hex_seq(s),
{
    Seq::new(s.len() / 2, |i: int| (hex_digit_value(s[2 * i]) * 16 + hex_digit_value(
        s[2 * i + 1],
    )) as u8)
}

/// Relies on hex::decode: an even-length string of hex digits (either case)
/// decodes to one byte per digit pair, high digit first; an odd length or a
/// non-digit byte is an error.
#[verifier::external_body]
fn hex_decode(s: &Vec<u8>) -> (r: Option<Vec<u8>>)
    ensures
        r is Some <==> is_hex_seq(s@),
        r matches Some(v) ==> v@ == spec_hex_decode(s@),
{
    hex::decode(s).ok()
}

/// Byte-for-byte comparison.
fn bytes_equal(a: &Vec<u8>, b: &Vec<u8>) -> (r: bool)
    ensures
        r <==> a@ == b@,
{
    if a.len() != b.len() {
        assert(a@ != b@);
        return false;
    }
    let mut k: usize = 0;
    while k < a.len()
        invariant
            k <= a@.len(),
            a@.len() == b@.len(),
            forall|i: int| 0 <= i < k ==> a@[i] == b@[i],
        decreases a@.len() - k,
    {
        if a[k] != b[k] {
            assert(a@ != b@);
            return false;
        }
        k = k + 1;
    }
    proof {
        assert(a@ =~= b@);
    }
    true
}

/// Compare the verifying key committed in the contract against the proving
/// backend's own, given as the usual zero-x-prefixed hex rendering. Run once
/// at startup; a mismatch must keep the operator loop from starting.
pub fn check_vkey(contract_vkey: &Vec<u8>, prover_vkey_hex: &Vec<u8>) -> (r: Result<
    (),
    OperatorError,
>)
    requires
        prover_vkey_hex@.len() >= 2,
        prover_vkey_hex@[0] == 48,
        prover_vkey_hex@[1] == 120,
        is_hex_seq(prover_vkey_hex@.skip(2)),
    ensures
        r is Ok <==> contract_vkey@ == spec_hex_decode(prover_vkey_hex@.skip(2)),
        r matches Err(e) ==> e is VkeyMismatch,
{
    let mut digits: Vec<u8> = Vec::new();
    let mut k: usize = 2;
    while k < prover_vkey_hex.len()
        invariant
            2 <= k <= prover_vkey_hex@.len(),
            digits@ == prover_vkey_hex@.subrange(2, k as int),
        decreases prover_vkey_hex@.len() - k,
    {
        digits.push(prover_vkey_hex[k]);
        k = k + 1;
    }
    proof {
        assert(digits@ =~= prover_vkey_hex@.skip(2));
    }
    let decoded = hex_decode(&digits);
    match decoded {
        Some(expected) => {
            if bytes_equal(contract_vkey, &expected) {
                Ok(())
            } else {
                Err(OperatorError::VkeyMismatch)
            }
        },
        None => Err(OperatorError::VkeyMismatch),
    }
}

} // verus!
