use std::str::FromStr;
use vstd::prelude::*;

verus! {

/// Why a text is not an unsigned integer (the kinds of `ParseIntError`
/// that parsing an unsigned integer can report).
#[derive(Debug, Clone, Copy, PartialEq, Eq)]
pub enum ParseIntFailure {
    Empty,
    InvalidDigit,
    PosOverflow,
    Other,
}

/// The text after an optional leading `+`.
pub open spec fn unsigned_body(s: Seq<char>) -> Seq<char> {
    if s.len() > 0 && s[0] == '+' {
        s.drop_first()
    } else {
        s
    }
}

/// One or more ASCII decimal digits.
pub open spec fn is_digit_run(s: Seq<char>) -> bool {
    s.len() > 0 && forall|i: int| 0 <= i < s.len() ==> '0' <= #[trigger] s[i] <= '9'
}

/// The number a run of decimal digits stands for.
pub open spec fn digits_value(s: Seq<char>) -> nat
    decreases s.len(),
{
    if s.len() == 0 {
        0
    } else {
        (digits_value(s.drop_last()) * 10 + ((s.last() as int) - ('0' as int))) as nat
    }
}

/// An optional `+` and digits whose value fits in a `u128`.
pub open spec fn parses_as_u128(s: Seq<char>) -> bool {
    is_digit_run(unsigned_body(s)) && digits_value(unsigned_body(s)) <= u128::MAX
}

/// `u128::from_str`. As the documentation of `from_str_radix` says, the text
/// must be an optional `+` followed by digits and the value must fit; an
/// empty text is `Empty` and a well-formed one that is too large is
/// `PosOverflow`. Which kind other malformed texts get is left open.
#[verifier::external_body]
pub(crate) fn parse_u128(s: &str) -> (r: Result<u128, ParseIntFailure>)
    ensures
        r is Ok <==> parses_as_u128(s@),
        r is Ok ==> r->Ok_0 == digits_value(unsigned_body(s@)),
        s@.len() == 0 ==> r is Err && r->Err_0 == ParseIntFailure::Empty,
        is_digit_run(unsigned_body(s@)) && digits_value(unsigned_body(s@)) > u128::MAX ==> r is Err
            && r->Err_0 == ParseIntFailure::PosOverflow,
{
    match u128::from_str(s) {
        Ok(v) => Ok(v),
        Err(e) => Err(
            match e.kind() {
                std::num::IntErrorKind::Empty => ParseIntFailure::Empty,
                std::num::IntErrorKind::InvalidDigit => ParseIntFailure::InvalidDigit,
                std::num::IntErrorKind::PosOverflow => ParseIntFailure::PosOverflow,
                _ => ParseIntFailure::Other,
            },
        ),
    }
}

/// A decimal text read as a `u128`, as event payloads carry large amounts.
pub fn u128_from_decimal_text(s: &str) -> (r: Result<u128, ParseIntFailure>)
    ensures
        r is Ok <==> parses_as_u128(s@),
        r is Ok ==> r->Ok_0 == digits_value(unsigned_body(s@)),
        s@.len() == 0 ==> r is Err && r->Err_0 == ParseIntFailure::Empty,
        is_digit_run(unsigned_body(s@)) && digits_value(unsigned_body(s@)) > u128::MAX ==> r is Err
            && r->Err_0 == ParseIntFailure::PosOverflow,
{
    parse_u128(s)
}

/// The collected fee of an account from its stored text: its value when the
/// text is a `u128`, 0 when there is no text or it is not one.
pub fn fee_collected_amount(stored: &Option<String>) -> (r: u128)
    ensures
        stored is None ==> r == 0,
        stored is Some ==> ({
            let t = stored->Some_0@;
            &&& parses_as_u128(t) ==> r == digits_value(unsigned_body(t))
            &&& !parses_as_u128(t) ==> r == 0
        }),
{
    match stored {
        None => 0,
        Some(s) => match parse_u128(s.as_str()) {
            Ok(v) => v,
            Err(_) => 0,
        },
    }
}

} // verus!
