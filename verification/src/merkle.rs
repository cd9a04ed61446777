use alloy::primitives::{B256, U256};
use alloy_merkle_tree::tree::MerkleTree;
use vstd::prelude::*;

use crate::hexcodec::lower_hex;

verus! {

/// The Merkle tree of alloy-merkle-tree, held opaque.
#[verifier::external_type_specification]
#[verifier::external_body]
pub struct ExMerkleTree(MerkleTree);

/// The leaves inserted into a tree, in insertion order.
pub uninterp spec fn merkle_tree_leaves(tree: MerkleTree) -> Seq<Seq<u8>>;

/// Whether `finish` has built the tree's layers.
pub uninterp spec fn merkle_tree_built(tree: MerkleTree) -> bool;

/// Whether the tree sorts its leaves before building.
pub uninterp spec fn merkle_tree_sorts(tree: MerkleTree) -> bool;

/// The root that `MerkleTree::finish` computes over these leaves
/// (keccak-256 pairing, odd nodes paired with themselves).
pub uninterp spec fn merkle_root_of(leaves: Seq<Seq<u8>>) -> Seq<u8>;

/// The sibling hashes that `MerkleTree::create_proof` lists for `leaf`
/// in a tree built over `leaves`.
pub uninterp spec fn merkle_siblings_of(leaves: Seq<Seq<u8>>, leaf: Seq<u8>) -> Seq<Seq<u8>>;

/// The 32 bytes of a word as plain values.
pub open spec fn words_view(ws: Seq<[u8; 32]>) -> Seq<Seq<u8>> {
    ws.map_values(|w: [u8; 32]| w@)
}

/// Big-endian 32-byte encoding of a machine-sized index (`B256::from(U256::from(i))`).
pub open spec fn index_word(i: usize) -> Seq<u8> {
    Seq::new(
        32,
        |k: int|
            if k < 24 {
                0u8
            } else {
                ((i as u64) >> ((8 * (31 - k)) as u64)) as u8
            },
    )
}

/// The `{:?}` text of a 32-byte word: `0x` and lower-case hex.
pub open spec fn word_text(w: Seq<u8>) -> Seq<char> {
    seq!['0', 'x'] + lower_hex(w)
}

/// The shape of a word's `{:?}` text: `0x` and 64 lower-case hex digits.
pub open spec fn is_word_text(t: Seq<char>) -> bool {
    &&& t.len() == 66
    &&& t[0] == '0'
    &&& t[1] == 'x'
    &&& forall|k: int| 2 <= k < 66 ==> ('0' <= #[trigger] t[k] <= '9' || 'a' <= t[k] <= 'f')
}

/// Every proof text of every entry has the shape of a word's text.
pub open spec fn all_word_texts(es: Seq<ProofEntry>) -> bool {
    forall|a: int, q: int|
        0 <= a < es.len() && 0 <= q < es[a].proof@.len() ==> is_word_text(
            #[trigger] es[a].proof@[q]@,
        )
}

proof fn lemma_word_text_shape(w: Seq<u8>)
    requires
        w.len() == 32,
    ensures
        is_word_text(word_text(w)),
{
    let t = word_text(w);
    let h = lower_hex(w);
    assert forall|k: int| 2 <= k < 66 implies ('0' <= #[trigger] t[k] <= '9' || 'a' <= t[k] <= 'f') by {
        assert(t[k] == h[k - 2]);
    }
}

/// The proof of `leaf` as texts, one per sibling.
pub open spec fn proof_texts(leaves: Seq<Seq<u8>>, leaf: Seq<u8>) -> Seq<Seq<char>> {
    merkle_siblings_of(leaves, leaf).map_values(|s: Seq<u8>| word_text(s))
}

/// `MerkleTree::new`: an empty tree that does not sort and is not built.
#[verifier::external_body]
pub(crate) fn merkle_tree_new() -> (t: MerkleTree)
    ensures
        merkle_tree_leaves(t) == Seq::<Seq<u8>>::empty(),
        !merkle_tree_built(t),
        !merkle_tree_sorts(t),
{
    MerkleTree::new()
}

/// `MerkleTree::insert`: appends a leaf.
#[verifier::external_body]
pub(crate) fn merkle_tree_insert(t: &mut MerkleTree, leaf: [u8; 32])
    requires
        !merkle_tree_built(*old(t)),
    ensures
        merkle_tree_leaves(*final(t)) == merkle_tree_leaves(*old(t)).push(leaf@),
        merkle_tree_built(*final(t)) == merkle_tree_built(*old(t)),
        merkle_tree_sorts(*final(t)) == merkle_tree_sorts(*old(t)),
{
    t.insert(B256::from(leaf))
}

/// `MerkleTree::finish`: builds the layers. It panics on a tree without
/// leaves, so that input is excluded; on a tree that does not sort, the
/// leaves stay as inserted.
#[verifier::external_body]
pub(crate) fn merkle_tree_finish(t: &mut MerkleTree)
    requires
        !merkle_tree_built(*old(t)),
        !merkle_tree_sorts(*old(t)),
        merkle_tree_leaves(*old(t)).len() > 0,
    ensures
        merkle_tree_built(*final(t)),
        !merkle_tree_sorts(*final(t)),
        merkle_tree_leaves(*final(t)) == merkle_tree_leaves(*old(t)),
{
    t.finish()
}

/// The `root` field of a built tree.
#[verifier::external_body]
pub(crate) fn merkle_tree_root(t: &MerkleTree) -> (r: [u8; 32])
    requires
        merkle_tree_built(*t),
    ensures
        r@ == merkle_root_of(merkle_tree_leaves(*t)),
{
    t.root.0
}

/// `MerkleTree::create_proof`, keeping the proof's siblings: `None` exactly
/// when the leaf was never inserted.
#[verifier::external_body]
pub(crate) fn merkle_tree_proof(t: &MerkleTree, leaf: [u8; 32]) -> (r: Option<Vec<[u8; 32]>>)
    requires
        merkle_tree_built(*t),
    ensures
        r is Some <==> merkle_tree_leaves(*t).contains(leaf@),
        r is Some ==> words_view(r->Some_0@) == merkle_siblings_of(merkle_tree_leaves(*t), leaf@),
{
    t.create_proof(&B256::from(leaf)).map(|p| p.siblings.iter().map(|s| s.0).collect())
}

/// `format!("{:?}", B256::from(w))`.
#[verifier::external_body]
pub(crate) fn word_debug_text(w: [u8; 32]) -> (r: String)
    ensures
        r@ == word_text(w@),
{
    format!("{:?}", B256::from(w))
}

/// `B256::from(U256::from(i))`.
#[verifier::external_body]
pub(crate) fn index_as_word(i: usize) -> (r: [u8; 32])
    ensures
        r@ == index_word(i),
{
    B256::from(U256::from(i)).0
}

/// The proof texts of every leaf, in leaf order.
pub open spec fn all_proof_texts(leaves: Seq<Seq<u8>>) -> Seq<Seq<Seq<char>>> {
    Seq::new(leaves.len(), |i: int| proof_texts(leaves, leaves[i]))
}

/// Builds a tree over `leaves` and returns its root together with the proof
/// map in which the proof of `leaves[i]` is stored under `keys[i]`.
pub(crate) fn merkle_root_and_proofs(leaves: &Vec<[u8; 32]>, keys: &Vec<String>) -> (r: (
    [u8; 32],
    Vec<ProofEntry>,
))
    requires
        leaves.len() > 0,
        keys.len() == leaves.len(),
    ensures
        r.0@ == merkle_root_of(words_view(leaves@)),
        r.0@.len() == 32,
        distinct_keys(r.1@),
        all_word_texts(r.1@),
        entries_map(r.1@) == keyed_proofs(
            texts_view(keys@),
            all_proof_texts(words_view(leaves@)),
        ),
{
    let mut tree = merkle_tree_new();
    let mut i: usize = 0;
    while i < leaves.len()
        invariant
            i <= leaves.len(),
            !merkle_tree_built(tree),
            !merkle_tree_sorts(tree),
            merkle_tree_leaves(tree) == words_view(leaves@.subrange(0, i as int)),
        decreases leaves.len() - i,
    {
        merkle_tree_insert(&mut tree, leaves[i]);
        proof {
            assert(words_view(leaves@.subrange(0, i + 1)) =~= words_view(
                leaves@.subrange(0, i as int),
            ).push(leaves@[i as int]@));
        }
        i = i + 1;
    }
    assert(leaves@.subrange(0, leaves.len() as int) =~= leaves@);
    merkle_tree_finish(&mut tree);
    let root = merkle_tree_root(&tree);
    let ghost all = words_view(leaves@);
    let ghost pv = all_proof_texts(all);
    let mut entries: Vec<ProofEntry> = Vec::new();
    let mut j: usize = 0;
    while j < leaves.len()
        invariant
            j <= leaves.len(),
            keys.len() == leaves.len(),
            merkle_tree_built(tree),
            merkle_tree_leaves(tree) == all,
            all == words_view(leaves@),
            pv == all_proof_texts(all),
            distinct_keys(entries@),
            all_word_texts(entries@),
            entries_map(entries@) == keyed_proofs(texts_view(keys@).subrange(0, j as int), pv),
        decreases leaves.len() - j,
    {
        assert(all[j as int] == leaves@[j as int]@);
        let siblings = match merkle_tree_proof(&tree, leaves[j]) {
            Some(s) => s,
            None => {
                assert(false);
                Vec::new()
            },
        };
        let mut texts: Vec<String> = Vec::new();
        let mut m: usize = 0;
        while m < siblings.len()
            invariant
                m <= siblings.len(),
                texts.len() == m,
                forall|q: int|
                    0 <= q < m ==> #[trigger] texts@[q]@ == word_text(siblings@[q]@),
                forall|q: int| 0 <= q < m ==> is_word_text(#[trigger] texts@[q]@),
            decreases siblings.len() - m,
        {
            let t = word_debug_text(siblings[m]);
            proof {
                lemma_word_text_shape(siblings@[m as int]@);
            }
            texts.push(t);
            m = m + 1;
        }
        proof {
            let sib = merkle_siblings_of(all, leaves@[j as int]@);
            assert(words_view(siblings@) == sib);
            assert(texts_view(texts@) =~= pv[j as int]) by {
                assert forall|q: int| 0 <= q < texts@.len() implies texts_view(texts@)[q]
                    == proof_texts(all, all[j as int])[q] by {
                    assert(sib[q] == siblings@[q]@);
                }
            }
        }
        insert_proof(&mut entries, keys[j].clone(), texts);
        proof {
            let ks = texts_view(keys@).subrange(0, j + 1);
            assert(ks.drop_last() =~= texts_view(keys@).subrange(0, j as int));
            assert(ks.last() == keys@[j as int]@);
        }
        j = j + 1;
    }
    assert(texts_view(keys@).subrange(0, keys.len() as int) =~= texts_view(keys@));
    (root, entries)
}

/// The texts of a vector of strings.
pub open spec fn texts_view(v: Seq<String>) -> Seq<Seq<char>> {
    v.map_values(|s: String| s@)
}

/// One entry of a proof map: a key and the proof texts stored under it.
pub struct ProofEntry {
    pub key: String,
    pub proof: Vec<String>,
}

/// The map that a list of entries stands for; a later entry for a key wins.
pub open spec fn entries_map(es: Seq<ProofEntry>) -> Map<Seq<char>, Seq<Seq<char>>>
    decreases es.len(),
{
    if es.len() == 0 {
        Map::empty()
    } else {
        entries_map(es.drop_last()).insert(es.last().key@, texts_view(es.last().proof@))
    }
}

/// No key occurs twice.
pub open spec fn distinct_keys(es: Seq<ProofEntry>) -> bool {
    forall|a: int, b: int|
        0 <= a < es.len() && 0 <= b < es.len() && a != b ==> #[trigger] es[a].key@ != #[trigger] es[b].key@
}

/// The map built by inserting `proofs[i]` under `keys[i]` in order, as a
/// `HashMap::insert` loop does: a later insert for a key replaces the value.
pub open spec fn keyed_proofs(keys: Seq<Seq<char>>, proofs: Seq<Seq<Seq<char>>>) -> Map<
    Seq<char>,
    Seq<Seq<char>>,
>
    decreases keys.len(),
{
    if keys.len() == 0 {
        Map::empty()
    } else {
        keyed_proofs(keys.drop_last(), proofs).insert(keys.last(), proofs[keys.len() - 1])
    }
}

proof fn lemma_entries_map_update(es: Seq<ProofEntry>, j: int, e: ProofEntry)
    requires
        distinct_keys(es),
        0 <= j < es.len(),
        es[j].key@ == e.key@,
    ensures
        entries_map(es.update(j, e)) == entries_map(es).insert(e.key@, texts_view(e.proof@)),
    decreases es.len(),
{
    let n = es.len();
    let es2 = es.update(j, e);
    if j == n - 1 {
        assert(es2.drop_last() =~= es.drop_last());
        assert(entries_map(es2) =~= entries_map(es).insert(e.key@, texts_view(e.proof@)));
    } else {
        let d = es.drop_last();
        assert(es2.drop_last() =~= d.update(j, e));
        assert(distinct_keys(d)) by {
            assert forall|a: int, b: int|
                0 <= a < d.len() && 0 <= b < d.len() && a != b implies #[trigger] d[a].key@
                != #[trigger] d[b].key@ by {
                assert(d[a] == es[a] && d[b] == es[b]);
            }
        }
        lemma_entries_map_update(d, j, e);
        assert(es[n - 1].key@ != es[j].key@);
        assert(es2.last() == es.last());
        assert(entries_map(es2) =~= entries_map(es).insert(e.key@, texts_view(e.proof@)));
    }
}

/// Stores `proof` under `key`, replacing an earlier proof for the same key.
pub(crate) fn insert_proof(entries: &mut Vec<ProofEntry>, key: String, proof: Vec<String>)
    requires
        distinct_keys(old(entries)@),
        all_word_texts(old(entries)@),
        forall|q: int| 0 <= q < proof@.len() ==> is_word_text(#[trigger] proof@[q]@),
    ensures
        distinct_keys(final(entries)@),
        all_word_texts(final(entries)@),
        entries_map(final(entries)@) == entries_map(old(entries)@).insert(key@, texts_view(proof@)),
{
    let mut i: usize = 0;
    while i < entries.len()
        invariant
            i <= entries.len(),
            entries@ == old(entries)@,
            distinct_keys(entries@),
            all_word_texts(entries@),
            forall|q: int| 0 <= q < proof@.len() ==> is_word_text(#[trigger] proof@[q]@),
            forall|k: int| 0 <= k < i ==> (#[trigger] entries@[k]).key@ != key@,
        decreases entries.len() - i,
    {
        if entries[i].key == key {
            let ghost before = entries@;
            let ghost e = ProofEntry { key: key, proof: proof };
            proof {
                lemma_entries_map_update(before, i as int, e);
            }
            entries.set(i, ProofEntry { key, proof });
            proof {
                assert(entries@ == before.update(i as int, e));
                assert forall|a: int, q: int|
                    0 <= a < entries@.len() && 0 <= q < entries@[a].proof@.len() implies is_word_text(
                    #[trigger] entries@[a].proof@[q]@,
                ) by {
                    if a != i {
                        assert(entries@[a] == before[a]);
                    }
                }
                assert forall|a: int, b: int|
                    0 <= a < entries@.len() && 0 <= b < entries@.len() && a != b implies #[trigger] entries@[a].key@
                    != #[trigger] entries@[b].key@ by {
                    assert(entries@[a].key@ == before[a].key@);
                    assert(entries@[b].key@ == before[b].key@);
                }
            }
            return;
        }
        i = i + 1;
    }
    let ghost before = entries@;
    entries.push(ProofEntry { key, proof });
    proof {
        assert(entries@.drop_last() =~= before);
        assert forall|a: int, q: int|
            0 <= a < entries@.len() && 0 <= q < entries@[a].proof@.len() implies is_word_text(
            #[trigger] entries@[a].proof@[q]@,
        ) by {
            if a < before.len() {
                assert(entries@[a] == before[a]);
            }
        }
        assert forall|a: int, b: int|
            0 <= a < entries@.len() && 0 <= b < entries@.len() && a != b implies #[trigger] entries@[a].key@
            != #[trigger] entries@[b].key@ by {
            if a < before.len() && b < before.len() {
                assert(entries@[a] == before[a] && entries@[b] == before[b]);
            } else if a < before.len() {
                assert(entries@[a] == before[a]);
                assert(entries@[b].key@ == key@);
            } else {
                assert(entries@[b] == before[b]);
                assert(entries@[a].key@ == key@);
            }
        }
        assert(entries_map(entries@) =~= entries_map(before).insert(key@, texts_view(proof@)));
    }
}


/// A proof map has an entry for every key and for nothing else, and under
/// a key it holds the proof of the key's last position; in particular, with
/// distinct holders each holder's entry is the proof of its own leaf.
pub proof fn lemma_keyed_proofs(keys: Seq<Seq<char>>, proofs: Seq<Seq<Seq<char>>>)
    requires
        keys.len() <= proofs.len(),
    ensures
        forall|k: Seq<char>| #[trigger] keyed_proofs(keys, proofs).contains_key(k) <==> keys.contains(k),
        forall|i: int|
            0 <= i < keys.len() && (forall|j: int| i < j < keys.len() ==> keys[j] != keys[i])
                ==> #[trigger] keyed_proofs(keys, proofs)[keys[i]] == proofs[i],
    decreases keys.len(),
{
    if keys.len() > 0 {
        let d = keys.drop_last();
        lemma_keyed_proofs(d, proofs);
        let n = keys.len() - 1;
        let m = keyed_proofs(keys, proofs);
        assert(m == keyed_proofs(d, proofs).insert(keys[n], proofs[n]));
        assert forall|k: Seq<char>| #[trigger] keyed_proofs(keys, proofs).contains_key(k)
            <==> keys.contains(k) by {
            if k == keys[n] {
                assert(keys.contains(k));
            }
            if keys.contains(k) && k != keys[n] {
                let q = choose|q: int| 0 <= q < keys.len() && keys[q] == k;
                assert(d[q] == k);
            }
            if d.contains(k) {
                let q = choose|q: int| 0 <= q < d.len() && d[q] == k;
                assert(keys[q] == k);
            }
        }
        assert forall|i: int|
            0 <= i < keys.len() && (forall|j: int| i < j < keys.len() ==> keys[j] != keys[i])
                implies #[trigger] keyed_proofs(keys, proofs)[keys[i]] == proofs[i] by {
            if i < n {
                assert(d[i] == keys[i]);
                assert(keys[n] != keys[i]);
                assert forall|j: int| i < j < d.len() implies d[j] != d[i] by {
                    assert(d[j] == keys[j]);
                }
            }
        }
    }
}

} // verus!
