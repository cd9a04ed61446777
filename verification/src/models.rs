use vstd::prelude::*;

use crate::hexcodec::{hex_encode, lower_hex};

verus! {

/// Offset and limit of a page of results.
pub struct PaginationParams {
    pub offset: i64,
    pub limit: i64,
}

/// A token and a page of its holders or trades.
pub struct TopHolderParams {
    pub token_address: String,
    pub offset: i64,
    pub limit: i64,
}

/// A token as the token list shows it.
#[allow(non_snake_case)]
pub struct CultTokensResponse {
    pub token_address: String,
    pub token_creator: String,
    pub name: String,
    pub symbol: String,
    pub ipfsData: String,
}

/// The Merkle root of a community as the community list shows it: lower-case
/// hex without prefix.
pub fn merkle_root_text(root: &Vec<u8>) -> (r: String)
    ensures
        r@ == lower_hex(root@),
{
    hex_encode(root.as_slice())
}

} // verus!
