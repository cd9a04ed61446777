use alloy::primitives::Address;
use std::str::FromStr;
use vstd::prelude::*;

verus! {

/// An ASCII hexadecimal digit character, either case.
pub open spec fn is_hex_char(c: char) -> bool {
    ('0' <= c <= '9') || ('a' <= c <= 'f') || ('A' <= c <= 'F')
}

/// Text that `Address::from_str` accepts: 40 hex digits, optionally after `0x` or `0X`.
pub open spec fn is_address_text(s: Seq<char>) -> bool {
    ||| (s.len() == 40 && forall|i: int| 0 <= i < 40 ==> is_hex_char(#[trigger] s[i]))
    ||| (s.len() == 42 && s[0] == '0' && (s[1] == 'x' || s[1] == 'X') && forall|i: int|
        2 <= i < 42 ==> is_hex_char(#[trigger] s[i]))
}

/// Whether alloy's `Address::from_str` accepts the text. alloy parses an
/// address as 20 fixed bytes through const-hex's `decode_to_array`, which
/// strips one leading `0x`/`0X` and then needs exactly 40 hex digits.
#[verifier::external_body]
pub(crate) fn address_parses(s: &str) -> (r: bool)
    ensures
        r == is_address_text(s@),
{
    Address::from_str(s).is_ok()
}

} // verus!
