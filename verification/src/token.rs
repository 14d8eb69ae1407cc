use vstd::prelude::*;

use crate::contract::Error;

verus! {

/// A locator token: 32 caller-supplied opaque bytes. The fixed length
/// keeps a waiting player's intent from leaking through the input size.
pub type TokenBytes = [u8; 32];

/// Whether `c` is a hexadecimal digit (either case).
pub open spec fn is_hex_digit(c: char) -> bool {
    ('0' <= c && c <= '9') || ('a' <= c && c <= 'f') || ('A' <= c && c <= 'F')
}

/// The numeric value of the hexadecimal digit `c`.
pub open spec fn hex_digit_value(c: char) -> u8
    recommends
        is_hex_digit(c),
{
    if '0' <= c && c <= '9' {
        (c as u8 - '0' as u8) as u8
    } else if 'a' <= c && c <= 'f' {
        (c as u8 - 'a' as u8 + 10) as u8
    } else {
        (c as u8 - 'A' as u8 + 10) as u8
    }
}

/// Whether `s` is a well-formed locator string: exactly 64 hex digits.
pub open spec fn valid_locator(s: Seq<char>) -> bool {
    s.len() == 64 && forall|i: int| 0 <= i < s.len() ==> is_hex_digit(#[trigger] s[i])
}

/// The 32 bytes that the 64-digit hex string `s` denotes, two digits
/// per byte, high digit first.
pub open spec fn spec_decode(s: Seq<char>) -> Seq<u8>
    recommends
        valid_locator(s),
{
    Seq::new(32, |i: int| (hex_digit_value(s[2 * i]) * 16 + hex_digit_value(s[2 * i + 1])) as u8)
}

/// The error type of the hex crate's decoders, declared so that the
/// trusted wrapper below can return it.
#[verifier::external_type_specification]
#[verifier::external_body]
pub struct ExFromHexError(hex::FromHexError);

/// Relies on hex::decode_to_slice into a 32-byte buffer: it succeeds
/// exactly when the input is 64 hex digits (either case), and then
/// writes the byte each digit pair denotes, high digit first.
#[verifier::external_body]
fn hex_decode_32(s: &str) -> (r: Result<TokenBytes, hex::FromHexError>)
    ensures
        r is Ok <==> valid_locator(s@),
        r is Ok ==> r->Ok_0@ == spec_decode(s@),
{
    let mut bytes = [0u8; 32];
    match hex::decode_to_slice(s, &mut bytes as &mut [u8]) {
        Ok(()) => Ok(bytes),
        Err(e) => Err(e),
    }
}

/// Decode a locator string into its 32 token bytes, rejecting anything
/// that is not exactly 64 hex digits.
pub fn parse_locator(s: &str) -> (r: Result<TokenBytes, Error>)
    ensures
        r is Ok <==> valid_locator(s@),
        r is Ok ==> r->Ok_0@ == spec_decode(s@),
        r is Err ==> r->Err_0 == Error::InvalidLocatorFormat,
{
    match hex_decode_32(s) {
        Ok(bytes) => Ok(bytes),
        Err(_) => Err(Error::InvalidLocatorFormat),
    }
}

/// Whether two token byte strings are equal.
pub fn token_eq(a: &TokenBytes, b: &TokenBytes) -> (r: bool)
    ensures
        r == (a@ == b@),
{
    let mut i: usize = 0;
    while i < 32
        invariant
            i <= 32,
            forall|j: int| 0 <= j < i ==> a@[j] == b@[j],
        decreases 32 - i,
    {
        if a[i] != b[i] {
            return false;
        }
        i += 1;
    }
    proof {
        assert(a@ =~= b@);
    }
    true
}

} // verus!
