use rand::Rng;
use vstd::prelude::*;

use crate::text::push_char;

verus! {

/// The characters of referral codes: capital letters and digits without the
/// easily confused `I`, `O`, `0` and `1`.
pub open spec fn referral_charset() -> Seq<char> {
    seq![
        'A', 'B', 'C', 'D', 'E', 'F', 'G', 'H', 'J', 'K', 'L', 'M', 'N', 'P', 'Q', 'R',
        'S', 'T', 'U', 'V', 'W', 'X', 'Y', 'Z', '2', '3', '4', '5', '6', '7', '8', '9',
    ]
}

/// Length of a referral code.
pub const CODE_LENGTH: usize = 8;

/// A referral code: eight characters of the charset.
pub open spec fn is_referral_code(s: Seq<char>) -> bool {
    &&& s.len() == CODE_LENGTH
    &&& forall|i: int| 0 <= i < s.len() ==> referral_charset().contains(#[trigger] s[i])
}

/// The characters of referral codes, as an array.
pub const CHARSET: [char; 32] = [
    'A', 'B', 'C', 'D', 'E', 'F', 'G', 'H', 'J', 'K', 'L', 'M', 'N', 'P', 'Q', 'R',
    'S', 'T', 'U', 'V', 'W', 'X', 'Y', 'Z', '2', '3', '4', '5', '6', '7', '8', '9',
];

/// A uniformly drawn index below `bound` (`rand::rng().random_range(0..bound)`).
/// Only the range of the value is promised.
#[verifier::external_body]
pub(crate) fn random_index(bound: usize) -> (r: usize)
    requires
        bound > 0,
    ensures
        r < bound,
{
    rand::rng().random_range(0..bound)
}

/// The code whose characters are the charset entries at `indices`.
pub fn referral_code_from_indices(indices: &Vec<usize>) -> (r: String)
    requires
        forall|i: int| 0 <= i < indices.len() ==> #[trigger] indices@[i] < 32,
    ensures
        r@ == indices@.map_values(|k: usize| referral_charset()[k as int]),
{
    let mut code = String::new();
    let mut i: usize = 0;
    while i < indices.len()
        invariant
            i <= indices.len(),
            forall|q: int| 0 <= q < indices.len() ==> #[trigger] indices@[q] < 32,
            code@ == indices@.subrange(0, i as int).map_values(
                |k: usize| referral_charset()[k as int],
            ),
        decreases indices.len() - i,
    {
        let k = indices[i];
        let c = CHARSET[k];
        assert(c == referral_charset()[k as int]);
        push_char(&mut code, c);
        proof {
            assert(indices@.subrange(0, i + 1).map_values(|k: usize| referral_charset()[k as int])
                =~= indices@.subrange(0, i as int).map_values(
                |k: usize| referral_charset()[k as int],
            ).push(c));
        }
        i = i + 1;
    }
    assert(indices@.subrange(0, indices.len() as int) =~= indices@);
    code
}

/// A fresh referral code: eight characters drawn at random from the charset.
pub fn generate_referral_code() -> (r: String)
    ensures
        is_referral_code(r@),
{
    let mut indices: Vec<usize> = Vec::new();
    let mut n: usize = 0;
    while n < CODE_LENGTH
        invariant
            n <= CODE_LENGTH,
            indices.len() == n,
            forall|q: int| 0 <= q < n ==> #[trigger] indices@[q] < 32,
        decreases CODE_LENGTH - n,
    {
        indices.push(random_index(32));
        n = n + 1;
    }
    let code = referral_code_from_indices(&indices);
    proof {
        assert forall|i: int| 0 <= i < code@.len() implies referral_charset().contains(
            #[trigger] code@[i],
        ) by {
            assert(code@[i] == referral_charset()[indices@[i] as int]);
        }
    }
    code
}

} // verus!
