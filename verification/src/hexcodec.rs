use vstd::prelude::*;
use vstd::string::StringSliceAdditionalSpecFns;
use vstd::utf8::{encode_utf8, is_ascii_chars, is_ascii_chars_encode_utf8};

use crate::text::{has_prefix, strip_leading, trim_leading};

verus! {

/// An ASCII hexadecimal digit, either case.
pub open spec fn is_hex_byte(b: u8) -> bool {
    (0x30 <= b <= 0x39) || (0x41 <= b <= 0x46) || (0x61 <= b <= 0x66)
}

/// The value of a hexadecimal digit.
pub open spec fn hex_byte_value(b: u8) -> int {
    if 0x30 <= b <= 0x39 {
        b - 0x30
    } else if 0x41 <= b <= 0x46 {
        b - 0x41 + 10
    } else {
        b - 0x61 + 10
    }
}

/// The bytes of a text without its leading copies of `0x`, as
/// `trim_start_matches("0x")` leaves them.
pub open spec fn unprefixed_digits(s: Seq<char>) -> Seq<u8> {
    encode_utf8(strip_leading(s, seq!['0', 'x']))
}

/// The bytes that an even-length run of hex digits stands for, two digits per byte.
pub open spec fn hex_decoded(digits: Seq<u8>) -> Seq<u8> {
    Seq::new(
        digits.len() / 2,
        |i: int| (hex_byte_value(digits[2 * i]) * 16 + hex_byte_value(digits[2 * i + 1])) as u8,
    )
}

/// Every byte of `digits` is a hexadecimal digit.
pub open spec fn all_hex(digits: Seq<u8>) -> bool {
    forall|i: int| 0 <= i < digits.len() ==> is_hex_byte(#[trigger] digits[i])
}

/// `i` is the position of the first byte of `digits` that is not a hex digit.
pub open spec fn first_non_hex_at(digits: Seq<u8>, i: int) -> bool {
    &&& 0 <= i < digits.len()
    &&& !is_hex_byte(digits[i])
    &&& forall|j: int| 0 <= j < i ==> is_hex_byte(#[trigger] digits[j])
}

/// The position of the first byte that is not a hex digit (meaningful when there is one).
pub open spec fn first_non_hex(digits: Seq<u8>) -> int {
    choose|i: int| first_non_hex_at(digits, i)
}

/// Lower-case hexadecimal digit for a value below 16.
pub open spec fn lower_hex_digit(n: int) -> char {
    if n < 10 {
        (('0' as int) + n) as char
    } else {
        (('a' as int) + n - 10) as char
    }
}

/// Lower-case hexadecimal text of a byte sequence, two digits per byte, high half first.
pub open spec fn lower_hex(bytes: Seq<u8>) -> Seq<char> {
    Seq::new(
        2 * bytes.len(),
        |k: int|
            if k % 2 == 0 {
                lower_hex_digit((bytes[k / 2] / 16) as int)
            } else {
                lower_hex_digit((bytes[k / 2] % 16) as int)
            },
    )
}

/// Why a text could not be read as hexadecimal (the variants of the hex
/// crate's `FromHexError`).
#[derive(Debug, Clone, Copy, PartialEq, Eq)]
pub enum HexDecodeError {
    InvalidHexCharacter { c: char, index: usize },
    OddLength,
    InvalidStringLength,
}

/// `hex::decode` of the bytes of a text.
///
/// The contract follows hex 0.4's `FromHex for Vec<u8>`: an odd number of
/// bytes is `OddLength`; otherwise the first byte that is no hex digit, read
/// as a Latin-1 character, is reported with its position; otherwise each pair
/// of digits becomes one byte.
#[verifier::external_body]
pub(crate) fn hex_decode(s: &str) -> (r: Result<Vec<u8>, HexDecodeError>)
    ensures
        s.spec_bytes().len() % 2 == 1 ==> r is Err && r->Err_0 == HexDecodeError::OddLength,
        s.spec_bytes().len() % 2 == 0 && all_hex(s.spec_bytes()) ==> r is Ok && r->Ok_0@
            == hex_decoded(s.spec_bytes()),
        s.spec_bytes().len() % 2 == 0 && !all_hex(s.spec_bytes()) ==> r is Err && r->Err_0
            == (HexDecodeError::InvalidHexCharacter {
                c: (s.spec_bytes()[first_non_hex(s.spec_bytes())] as char),
                index: first_non_hex(s.spec_bytes()) as usize,
            }),
{
    match hex::decode(s) {
        Ok(v) => Ok(v),
        Err(hex::FromHexError::InvalidHexCharacter { c, index }) => Err(
            HexDecodeError::InvalidHexCharacter { c, index },
        ),
        Err(hex::FromHexError::OddLength) => Err(HexDecodeError::OddLength),
        Err(hex::FromHexError::InvalidStringLength) => Err(HexDecodeError::InvalidStringLength),
    }
}

/// `hex::encode`: lower-case hexadecimal text of the bytes.
#[verifier::external_body]
pub(crate) fn hex_encode(bytes: &[u8]) -> (r: String)
    ensures
        r@ == lower_hex(bytes@),
{
    hex::encode(bytes)
}

/// When not every byte is a hex digit, there is a first one that is not.
pub proof fn lemma_first_non_hex_exists(digits: Seq<u8>)
    requires
        !all_hex(digits),
    ensures
        exists|i: int| first_non_hex_at(digits, i),
    decreases digits.len(),
{
    if digits.len() > 0 && !is_hex_byte(digits[0]) {
        assert(first_non_hex_at(digits, 0));
    } else {
        let rest = digits.drop_first();
        assert(!all_hex(rest)) by {
            let k = choose|k: int| 0 <= k < digits.len() && !is_hex_byte(#[trigger] digits[k]);
            assert(rest[k - 1] == digits[k]);
        }
        lemma_first_non_hex_exists(rest);
        let i = choose|i: int| first_non_hex_at(rest, i);
        assert forall|j: int| 0 <= j < i + 1 implies is_hex_byte(#[trigger] digits[j]) by {
            if j > 0 {
                assert(digits[j] == rest[j - 1]);
            }
        }
        assert(first_non_hex_at(digits, i + 1));
    }
}


/// What decoding `unprefixed_digits(s)` gives: `OddLength` for an odd number
/// of bytes, the first non-digit for a bad digit, the decoded bytes otherwise.
pub open spec fn prefixed_hex_outcome(s: Seq<char>) -> Result<Seq<u8>, HexDecodeError> {
    let d = unprefixed_digits(s);
    if d.len() % 2 == 1 {
        Err(HexDecodeError::OddLength)
    } else if !all_hex(d) {
        Err(
            HexDecodeError::InvalidHexCharacter {
                c: (d[first_non_hex(d)] as char),
                index: first_non_hex(d) as usize,
            },
        )
    } else {
        Ok(hex_decoded(d))
    }
}

/// `hex::decode(s.trim_start_matches("0x"))`.
pub fn decode_prefixed_hex(s: &String) -> (r: Result<Vec<u8>, HexDecodeError>)
    ensures
        prefixed_hex_outcome(s@) is Ok ==> r is Ok && r->Ok_0@ == prefixed_hex_outcome(s@)->Ok_0,
        prefixed_hex_outcome(s@) is Err ==> r is Err && r->Err_0 == prefixed_hex_outcome(
            s@,
        )->Err_0,
{
    let trimmed = trim_leading(s.as_str(), "0x");
    proof {
        reveal_strlit("0x");
        assert("0x"@ =~= seq!['0', 'x']);
    }
    let ts = trimmed.as_str();
    assert(ts.spec_bytes() == unprefixed_digits(s@));
    hex_decode(ts)
}


proof fn lemma_lower_hex_digit(n: int)
    requires
        0 <= n < 16,
    ensures
        (lower_hex_digit(n) as u32) < 128,
        lower_hex_digit(n) != 'x',
        is_hex_byte(lower_hex_digit(n) as u8),
        hex_byte_value(lower_hex_digit(n) as u8) == n,
{
}

proof fn lemma_lower_hex_ascii(bytes: Seq<u8>)
    ensures
        is_ascii_chars(lower_hex(bytes)),
        forall|k: int| 0 <= k < lower_hex(bytes).len() ==> #[trigger] lower_hex(bytes)[k] != 'x',
        encode_utf8(lower_hex(bytes)) == lower_hex(bytes).map_values(|c: char| c as u8),
{
    let h = lower_hex(bytes);
    assert forall|k: int| 0 <= k < h.len() implies '\0' <= #[trigger] h[k] <= '\u{7f}' && h[k] != 'x' by {
        if k % 2 == 0 {
            lemma_lower_hex_digit((bytes[k / 2] / 16) as int);
        } else {
            lemma_lower_hex_digit((bytes[k / 2] % 16) as int);
        }
    }
    is_ascii_chars_encode_utf8(h);
    assert(encode_utf8(h) =~= h.map_values(|c: char| c as u8));
}

/// Reading back the lower-case hex text of some bytes, with or without a
/// leading `0x`, gives exactly those bytes: the `0x` texts of Merkle roots
/// and the hex of stored roots decode to the roots.
pub proof fn lemma_lower_hex_round_trip(bytes: Seq<u8>)
    ensures
        prefixed_hex_outcome(lower_hex(bytes)) == Ok::<Seq<u8>, HexDecodeError>(bytes),
        prefixed_hex_outcome(seq!['0', 'x'] + lower_hex(bytes)) == Ok::<Seq<u8>, HexDecodeError>(
            bytes,
        ),
{
    let h = lower_hex(bytes);
    let p = seq!['0', 'x'];
    lemma_lower_hex_ascii(bytes);
    // no leading `0x` in the hex digits themselves
    assert(!has_prefix(h, p)) by {
        if h.len() >= 2 {
            assert(h.subrange(0, 2)[1] == h[1]);
        }
    }
    assert(strip_leading(h, p) == h);
    let ph = p + h;
    assert(has_prefix(ph, p)) by {
        assert(ph.subrange(0, 2) =~= p);
    }
    assert(ph.subrange(2, ph.len() as int) =~= h);
    assert(strip_leading(ph, p) == strip_leading(h, p));
    let d = encode_utf8(h);
    assert(d.len() == 2 * bytes.len());
    assert forall|i: int| 0 <= i < d.len() implies is_hex_byte(#[trigger] d[i]) by {
        if i % 2 == 0 {
            lemma_lower_hex_digit((bytes[i / 2] / 16) as int);
        } else {
            lemma_lower_hex_digit((bytes[i / 2] % 16) as int);
        }
    }
    assert(hex_decoded(d) =~= bytes) by {
        assert forall|i: int| 0 <= i < bytes.len() implies hex_decoded(d)[i] == bytes[i] by {
            lemma_lower_hex_digit((bytes[i] / 16) as int);
            lemma_lower_hex_digit((bytes[i] % 16) as int);
            assert(d[2 * i] == h[2 * i] as u8);
            assert(d[2 * i + 1] == h[2 * i + 1] as u8);
            assert((2 * i) / 2 == i);
            assert((2 * i + 1) / 2 == i);
            assert((2 * i) % 2 == 0);
            assert((2 * i + 1) % 2 == 1);
        }
    }
}

} // verus!
