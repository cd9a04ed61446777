use vstd::prelude::*;
use vstd::utf8::is_ascii_chars;

use crate::text::text;

verus! {

/// What `str::to_uppercase` returns for a text (Unicode case mapping).
pub uninterp spec fn unicode_uppercase(s: Seq<char>) -> Seq<char>;

/// ASCII letters `a`..`z` raised to `A`..`Z`, other characters kept.
pub open spec fn ascii_uppercase(s: Seq<char>) -> Seq<char> {
    s.map_values(|c: char| if 'a' <= c <= 'z' { ((c as u32) - 32) as char } else { c })
}

/// `str::to_uppercase`. The full Unicode mapping is left to its name; on
/// ASCII text it raises exactly the letters `a`..`z`.
#[verifier::external_body]
pub(crate) fn to_uppercase(s: &str) -> (r: String)
    ensures
        r@ == unicode_uppercase(s@),
        is_ascii_chars(s@) ==> r@ == ascii_uppercase(s@),
{
    s.to_uppercase()
}

/// The ticker under which a price is stored: `BTC` for `bitcoin`, `ETH` for
/// `ethereum`, and otherwise the id in upper case.
pub fn price_symbol(id: &String) -> (r: String)
    ensures
        id@ == "bitcoin"@ ==> r@ == "BTC"@,
        id@ == "ethereum"@ ==> r@ == "ETH"@,
        id@ != "bitcoin"@ && id@ != "ethereum"@ ==> r@ == unicode_uppercase(id@),
{
    proof {
        reveal_strlit("bitcoin");
        reveal_strlit("ethereum");
        assert("bitcoin"@[0] != "ethereum"@[0]);
    }
    if *id == text("bitcoin") {
        text("BTC")
    } else if *id == text("ethereum") {
        text("ETH")
    } else {
        to_uppercase(id.as_str())
    }
}

/// The address of the coin price query.
pub fn price_feed_url() -> (r: String)
    ensures
        r@ == "https://api.coingecko.com/api/v3/simple/price?ids=bitcoin,ethereum&vs_currencies=usd&include_24hr_change=true&include_1hr_change=true"@,
{
    text(
        "https://api.coingecko.com/api/v3/simple/price?ids=bitcoin,ethereum&vs_currencies=usd&include_24hr_change=true&include_1hr_change=true",
    )
}

} // verus!
