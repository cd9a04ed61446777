use vstd::prelude::*;

use crate::address::{address_parses, is_address_text};
use crate::merkle::{
    all_proof_texts, all_word_texts, distinct_keys, entries_map, index_as_word, index_word, keyed_proofs,
    lemma_keyed_proofs, merkle_root_and_proofs, merkle_root_of, proof_texts, texts_view,
    words_view, ProofEntry,
};
use crate::text::text;

verus! {

/// A moment in UTC: seconds since the Unix epoch and the nanoseconds past them.
#[derive(Debug, Clone, Copy, PartialEq, Eq)]
pub struct UtcInstant {
    pub seconds: i64,
    pub nanos: u32,
}

/// The current time (`chrono::Utc::now`). Nothing is promised of the value:
/// it depends on the clock.
#[verifier::external_body]
pub(crate) fn utc_now() -> (r: UtcInstant) {
    let now = chrono::Utc::now();
    UtcInstant { seconds: now.timestamp(), nanos: now.timestamp_subsec_nanos() }
}

/// A community whose holders receive airdrops, with its Merkle data.
pub struct Community {
    pub id: String,
    pub name: String,
    pub img_url: String,
    pub address: String,
    pub chain: String,
    pub merkle_root: Option<Vec<u8>>,
    pub last_updated_time: Option<UtcInstant>,
    pub merkle_proofs: Option<Vec<ProofEntry>>,
}

/// The owners of a collection as the NFT API lists them.
pub struct NftOwnersResponse {
    pub owners: Vec<String>,
}

/// One configured community.
pub struct CommunityConfig {
    pub name: String,
    pub address: String,
    pub chain: String,
    pub img_url: String,
}

/// The leaves of a community tree: the big-endian words of `0..n`.
pub open spec fn index_words(n: nat) -> Seq<Seq<u8>> {
    Seq::new(n, |i: int| index_word(i as usize))
}

/// The proof map of a community: under each holder text, the proof of the
/// leaf of its position (the last position for a repeated holder).
pub open spec fn community_proofs(holders: Seq<Seq<char>>) -> Map<Seq<char>, Seq<Seq<char>>> {
    keyed_proofs(holders, all_proof_texts(index_words(holders.len())))
}

/// A community's proof map has an entry for each holder and for nothing
/// else, and a holder that is not listed again later holds the proof of the
/// leaf of its own position.
pub proof fn lemma_community_proofs(holders: Seq<Seq<char>>, i: int)
    requires
        0 <= i < holders.len(),
        forall|j: int| i < j < holders.len() ==> holders[j] != holders[i],
    ensures
        forall|k: Seq<char>| #[trigger] community_proofs(holders).contains_key(k) <==> holders.contains(k),
        community_proofs(holders)[holders[i]] == proof_texts(
            index_words(holders.len()),
            index_word(i as usize),
        ),
{
    let leaves = index_words(holders.len());
    lemma_keyed_proofs(holders, all_proof_texts(leaves));
    assert(leaves[i] == index_word(i as usize));
}

impl Community {
    /// A community without Merkle data, keyed by its contract address;
    /// refused when the address is not 40 hex digits (optionally after `0x`).
    pub fn new(name: String, img_url: String, address: String, chain: String) -> (r: Result<
        Community,
        String,
    >)
        ensures
            r is Err <==> !is_address_text(address@),
            r is Err ==> r->Err_0@ == "Invalid Ethereum address"@,
            r is Ok ==> ({
                let c = r->Ok_0;
                &&& c.id@ == address@
                &&& c.address@ == address@
                &&& c.name@ == name@
                &&& c.img_url@ == img_url@
                &&& c.chain@ == chain@
                &&& c.merkle_root is None
                &&& c.last_updated_time is None
                &&& c.merkle_proofs is None
            }),
    {
        if !address_parses(address.as_str()) {
            return Err(text("Invalid Ethereum address"));
        }
        Ok(Community {
            id: address.clone(),
            name,
            img_url,
            address,
            chain,
            merkle_root: None,
            last_updated_time: None,
            merkle_proofs: None,
        })
    }

    /// Computes the Merkle root over the positions `0..leaves.len()` and
    /// stores, under each holder text, the proof of its position; stamps the
    /// update time. The tree cannot be built without leaves, so at least one
    /// holder is needed.
    pub fn set_merkle_data(&mut self, leaves: Vec<String>) -> (r: Result<(), String>)
        requires
            leaves.len() > 0,
        ensures
            r is Ok,
            final(self).merkle_root is Some,
            final(self).merkle_root->Some_0@ == merkle_root_of(index_words(leaves.len() as nat)),
            final(self).merkle_root->Some_0@.len() == 32,
            final(self).merkle_proofs is Some,
            distinct_keys(final(self).merkle_proofs->Some_0@),
            all_word_texts(final(self).merkle_proofs->Some_0@),
            entries_map(final(self).merkle_proofs->Some_0@) == community_proofs(
                texts_view(leaves@),
            ),
            final(self).last_updated_time is Some,
            final(self).id == old(self).id,
            final(self).name == old(self).name,
            final(self).img_url == old(self).img_url,
            final(self).address == old(self).address,
            final(self).chain == old(self).chain,
    {
        let mut words: Vec<[u8; 32]> = Vec::new();
        let mut i: usize = 0;
        while i < leaves.len()
            invariant
                i <= leaves.len(),
                words.len() == i,
                words_view(words@) == index_words(i as nat),
            decreases leaves.len() - i,
        {
            let w = index_as_word(i);
            let ghost before = words@;
            words.push(w);
            proof {
                assert forall|q: int| 0 <= q < i + 1 implies #[trigger] words_view(words@)[q]
                    == index_words((i + 1) as nat)[q] by {
                    if q < i {
                        assert(words@[q] == before[q]);
                        assert(words_view(before)[q] == index_words(i as nat)[q]);
                    }
                }
                assert(words_view(words@) =~= index_words((i + 1) as nat));
            }
            i = i + 1;
        }
        let (root, proofs) = merkle_root_and_proofs(&words, &leaves);
        let mut root_bytes: Vec<u8> = Vec::new();
        let mut k: usize = 0;
        while k < 32
            invariant
                k <= 32,
                root_bytes@ == root@.subrange(0, k as int),
            decreases 32 - k,
        {
            root_bytes.push(root[k]);
            proof {
                assert(root_bytes@ =~= root@.subrange(0, k + 1));
            }
            k = k + 1;
        }
        assert(root_bytes@ =~= root@);
        self.merkle_root = Some(root_bytes);
        self.merkle_proofs = Some(proofs);
        self.last_updated_time = Some(utc_now());
        Ok(())
    }
}


/// The NFT API address listing the owners of a community's contract.
pub fn nft_owners_url(config: &CommunityConfig, api_key: &str) -> (r: String)
    ensures
        r@ == "https://"@ + config.chain@ + ".g.alchemy.com/nft/v3/"@ + api_key@
            + "/getOwnersForContract?contractAddress="@ + config.address@
            + "&withTokenBalances=false"@,
{
    let mut url = text("https://");
    url.append(config.chain.as_str());
    url.append(".g.alchemy.com/nft/v3/");
    url.append(api_key);
    url.append("/getOwnersForContract?contractAddress=");
    url.append(config.address.as_str());
    url.append("&withTokenBalances=false");
    url
}

/// The community of a configuration with the Merkle data of its current
/// owners, as a refresh stores it; refused, with the reason, when the
/// configured address is not an address. The tree needs at least one owner.
pub fn refreshed_community(config: &CommunityConfig, owners: Vec<String>) -> (r: Result<
    Community,
    String,
>)
    requires
        owners.len() > 0,
    ensures
        r is Err <==> !is_address_text(config.address@),
        r is Err ==> r->Err_0@ == "Community creation error: Invalid Ethereum address"@,
        r is Ok ==> ({
            let c = r->Ok_0;
            &&& c.id@ == config.address@
            &&& c.address@ == config.address@
            &&& c.name@ == config.name@
            &&& c.img_url@ == config.img_url@
            &&& c.chain@ == config.chain@
            &&& c.merkle_root is Some
            &&& c.merkle_root->Some_0@ == merkle_root_of(index_words(owners.len() as nat))
            &&& c.merkle_root->Some_0@.len() == 32
            &&& c.merkle_proofs is Some
            &&& distinct_keys(c.merkle_proofs->Some_0@)
            &&& all_word_texts(c.merkle_proofs->Some_0@)
            &&& entries_map(c.merkle_proofs->Some_0@) == community_proofs(texts_view(owners@))
            &&& c.last_updated_time is Some
        }),
{
    let created = Community::new(
        config.name.clone(),
        config.img_url.clone(),
        config.address.clone(),
        config.chain.clone(),
    );
    match created {
        Err(e) => {
            let mut msg = text("Community creation error: ");
            msg.append(e.as_str());
            proof {
                reveal_strlit("Community creation error: ");
                reveal_strlit("Invalid Ethereum address");
                reveal_strlit("Community creation error: Invalid Ethereum address");
                assert(msg@ =~= "Community creation error: Invalid Ethereum address"@);
            }
            Err(msg)
        },
        Ok(mut c) => {
            let _ = c.set_merkle_data(owners);
            Ok(c)
        },
    }
}

} // verus!
