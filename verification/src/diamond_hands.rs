use vstd::prelude::*;

use crate::hexcodec::{
    decode_prefixed_hex, hex_byte_value, hex_decoded, lower_hex, prefixed_hex_outcome,
    unprefixed_digits, HexDecodeError,
};
use crate::merkle::{
    all_proof_texts, all_word_texts, distinct_keys, entries_map, keyed_proofs, lemma_keyed_proofs,
    merkle_root_and_proofs, merkle_root_of, proof_texts, texts_view, words_view, ProofEntry,
};
use crate::text::{
    chars_less, chars_of, chars_vec_less, lemma_chars_less_irreflexive, lemma_chars_less_transitive,
    text,
};

verus! {

/// How many accounts the diamond-hand list holds.
pub const SAMPLE_SIZE: usize = 10;

/// Identifier, name, image, address and chain of the diamond-hand community.
pub const DIAMOND_HAND_ID: &'static str = "0x000000000000000000000000000000000d1a305d";
pub const DIAMOND_HAND_NAME: &'static str = "diamondHandList";
pub const DIAMOND_HAND_IMG: &'static str = "https://placeholder.com/diamond_hands.png";
pub const DIAMOND_HAND_ADDRESS: &'static str = "0x000000000000000000000000000000000d1a305d";
pub const DIAMOND_HAND_CHAIN: &'static str = "monadTestnet";

// ---------------------------------------------------------------------------
// Weighted sample
// ---------------------------------------------------------------------------

/// `sel` picks `min(n, k)` distinct candidates, and no candidate left out has
/// a smaller key than one picked.
pub open spec fn is_smallest_key_selection(keys: Seq<u64>, k: nat, sel: Seq<int>) -> bool {
    &&& sel.len() == (if keys.len() < k { keys.len() } else { k })
    &&& forall|t: int| 0 <= t < sel.len() ==> 0 <= #[trigger] sel[t] < keys.len()
    &&& forall|a: int, b: int|
        0 <= a < sel.len() && 0 <= b < sel.len() && a != b ==> #[trigger] sel[a] != #[trigger] sel[b]
    &&& forall|t: int, j: int|
        0 <= t < sel.len() && 0 <= j < keys.len() && !sel.contains(j) ==> keys[#[trigger] sel[t]]
            <= #[trigger] keys[j]
}

/// The keys of the candidates.
pub open spec fn candidate_keys(cands: Seq<(u64, String)>) -> Seq<u64> {
    cands.map_values(|c: (u64, String)| c.0)
}

/// Ties are settled as a bounded max-heap of `(key, id)` pairs settles them:
/// a candidate left out that comes before a kept one with the same key has
/// an id no smaller than the kept one's. So a later candidate never takes
/// the place of an earlier one of equal key; an earlier one only leaves as
/// the greatest pair, when a strictly smaller key arrives.
pub open spec fn ties_keep_earlier(cands: Seq<(u64, String)>, sel: Seq<int>) -> bool {
    forall|j: int, t: int|
        #![trigger sel[t], cands[j]]
        0 <= j < cands.len() && !sel.contains(j) && 0 <= t < sel.len() && j < sel[t] && cands[j].0
            == cands[sel[t]].0 ==> !chars_less(cands[j].1@, cands[sel[t]].1@)
}

/// The ids of the candidates at the positions of `sel`.
pub open spec fn selected_ids(cands: Seq<(u64, String)>, sel: Seq<int>) -> Seq<Seq<char>> {
    sel.map_values(|j: int| cands[j].1@)
}

/// Position of a greatest entry of `kept`, comparing keys and then ids as a
/// max-heap of `(key, id)` pairs does.
fn max_position(kept: &Vec<(u64, String)>, ids: &Vec<Vec<char>>) -> (m: usize)
    requires
        kept.len() > 0,
        ids.len() == kept.len(),
        forall|t: int| 0 <= t < ids.len() ==> (#[trigger] ids@[t])@ == kept@[t].1@,
    ensures
        m < kept.len(),
        forall|t: int| 0 <= t < kept.len() ==> (#[trigger] kept@[t]).0 <= kept@[m as int].0,
        forall|t: int|
            0 <= t < kept.len() && (#[trigger] kept@[t]).0 == kept@[m as int].0 ==> !chars_less(
                kept@[m as int].1@,
                kept@[t].1@,
            ),
{
    let mut best: usize = 0;
    let mut t: usize = 1;
    proof {
        lemma_chars_less_irreflexive(kept@[0].1@);
    }
    while t < kept.len()
        invariant
            ids.len() == kept.len(),
            forall|q: int| 0 <= q < ids.len() ==> (#[trigger] ids@[q])@ == kept@[q].1@,
            best < kept.len(),
            1 <= t <= kept.len(),
            forall|q: int| 0 <= q < t ==> (#[trigger] kept@[q]).0 <= kept@[best as int].0,
            forall|q: int|
                0 <= q < t && (#[trigger] kept@[q]).0 == kept@[best as int].0 ==> !chars_less(
                    kept@[best as int].1@,
                    kept@[q].1@,
                ),
        decreases kept.len() - t,
    {
        assert(ids@[best as int]@ == kept@[best as int].1@);
        assert(ids@[t as int]@ == kept@[t as int].1@);
        if kept[t].0 > kept[best].0 || (kept[t].0 == kept[best].0 && chars_vec_less(
            &ids[best],
            &ids[t],
        )) {
            let ghost old_best = best as int;
            best = t;
            proof {
                assert forall|q: int|
                    0 <= q < t + 1 && (#[trigger] kept@[q]).0 == kept@[best as int].0 implies !chars_less(
                    kept@[best as int].1@,
                    kept@[q].1@,
                ) by {
                    if q < t && chars_less(kept@[best as int].1@, kept@[q].1@) {
                        lemma_chars_less_transitive(
                            kept@[old_best].1@,
                            kept@[best as int].1@,
                            kept@[q].1@,
                        );
                    }
                    if q == t {
                        lemma_chars_less_irreflexive(kept@[q].1@);
                    }
                }
            }
        } else {
            proof {
                if kept[t as int].0 == kept[best as int].0 {
                    assert(!chars_less(kept@[best as int].1@, kept@[t as int].1@));
                }
            }
        }
        t = t + 1;
    }
    best
}

/// Keeps the `sample_size` candidates of smallest key, scanning once as a
/// bounded max-heap does: the first `sample_size` candidates are taken, and
/// each later one replaces the current greatest when its key is strictly
/// smaller. The order of the returned ids is not significant.
pub fn select_weighted_sample_by_keys(candidates: Vec<(u64, String)>, sample_size: usize) -> (r:
    Vec<String>)
    ensures
        exists|sel: Seq<int>|
            is_smallest_key_selection(candidate_keys(candidates@), sample_size as nat, sel)
                && ties_keep_earlier(candidates@, sel) && #[trigger] texts_view(r@)
                == selected_ids(candidates@, sel),
{
    let ghost keys = candidate_keys(candidates@);
    let mut kept: Vec<(u64, String)> = Vec::new();
    let mut ids: Vec<Vec<char>> = Vec::new();
    let ghost mut sel: Seq<int> = Seq::empty();
    let mut i: usize = 0;
    while i < candidates.len()
        invariant
            i <= candidates.len(),
            keys == candidate_keys(candidates@),
            keys.len() == candidates.len(),
            ids.len() == kept.len(),
            kept.len() == sel.len(),
            kept.len() == (if i < sample_size { i } else { sample_size }),
            forall|t: int| 0 <= t < sel.len() ==> 0 <= #[trigger] sel[t] < i,
            forall|a: int, b: int|
                0 <= a < sel.len() && 0 <= b < sel.len() && a != b ==> #[trigger] sel[a]
                    != #[trigger] sel[b],
            forall|t: int| 0 <= t < sel.len() ==> #[trigger] kept@[t] == candidates@[sel[t]],
            forall|t: int, j: int|
                0 <= t < sel.len() && 0 <= j < i && !sel.contains(j) ==> keys[#[trigger] sel[t]]
                    <= #[trigger] keys[j],
            i <= sample_size ==> forall|t: int| 0 <= t < i ==> #[trigger] sel[t] == t,
            forall|t: int| 0 <= t < ids.len() ==> (#[trigger] ids@[t])@ == kept@[t].1@,
            forall|j: int, t: int|
                #![trigger sel[t], candidates@[j]]
                0 <= j < i && !sel.contains(j) && 0 <= t < sel.len() && j < sel[t]
                    && candidates@[j].0 == candidates@[sel[t]].0 ==> !chars_less(
                    candidates@[j].1@,
                    candidates@[sel[t]].1@,
                ),
        decreases candidates.len() - i,
    {
        let key = candidates[i].0;
        assert(keys[i as int] == key);
        if kept.len() < sample_size {
            let id = candidates[i].1.clone();
            let cs = chars_of(id.as_str());
            let ghost old_sel = sel;
            kept.push((key, id));
            ids.push(cs);
            proof {
                sel = sel.push(i as int);
                assert forall|t: int, j: int|
                    0 <= t < sel.len() && 0 <= j < i + 1 && !sel.contains(j) implies keys[#[trigger] sel[t]]
                    <= #[trigger] keys[j] by {
                    assert(sel[sel.len() - 1] == i);
                    assert(j != i);
                    assert(old_sel[j] == j);
                    assert(sel[j] == j);
                    assert(sel.contains(j));
                }
                assert forall|t: int| 0 <= t < sel.len() implies #[trigger] kept@[t]
                    == candidates@[sel[t]] by {
                    if t < old_sel.len() {
                        assert(sel[t] == old_sel[t]);
                    }
                }
                assert forall|j: int, t: int|
                    #![trigger sel[t], candidates@[j]]
                    0 <= j < i + 1 && !sel.contains(j) && 0 <= t < sel.len() && j < sel[t]
                        && candidates@[j].0 == candidates@[sel[t]].0 implies !chars_less(
                    candidates@[j].1@,
                    candidates@[sel[t]].1@,
                ) by {
                    assert(sel[sel.len() - 1] == i);
                    if j < i {
                        assert(old_sel[j] == j);
                        assert(sel[j] == j);
                    }
                    assert(sel.contains(j));
                }
            }
        } else if kept.len() > 0 {
            let m = max_position(&kept, &ids);
            if key < kept[m].0 {
                let id = candidates[i].1.clone();
                let cs = chars_of(id.as_str());
                let ghost old_sel = sel;
                let ghost gone = sel[m as int];
                let ghost old_kept = kept@;
                kept.set(m, (key, id));
                ids.set(m, cs);
                proof {
                    sel = sel.update(m as int, i as int);
                    assert forall|t: int, j: int|
                        0 <= t < sel.len() && 0 <= j < i + 1 && !sel.contains(j) implies keys[#[trigger] sel[t]]
                        <= #[trigger] keys[j] by {
                        if j == gone {
                            if t != m {
                                assert(sel[t] == old_sel[t]);
                                assert(old_kept[t] == candidates@[old_sel[t]]);
                                assert(old_kept[m as int] == candidates@[gone]);
                                assert(old_kept[t].0 <= old_kept[m as int].0);
                                assert(keys[old_sel[t]] <= keys[gone]);
                            }
                        } else {
                            assert(j != i) by {
                                assert(sel[m as int] == i);
                            }
                            assert(!old_sel.contains(j)) by {
                                if old_sel.contains(j) {
                                    let q = choose|q: int| 0 <= q < old_sel.len() && old_sel[q] == j;
                                    assert(q != m);
                                    assert(sel[q] == j);
                                }
                            }
                            assert(keys[old_sel[m as int]] <= keys[j]);
                            if t != m {
                                assert(sel[t] == old_sel[t]);
                            }
                        }
                    }
                    assert forall|a: int, b: int|
                        0 <= a < sel.len() && 0 <= b < sel.len() && a != b implies #[trigger] sel[a]
                        != #[trigger] sel[b] by {
                        if a == m {
                            assert(old_sel[b] < i);
                        } else if b == m {
                            assert(old_sel[a] < i);
                        } else {
                            assert(sel[a] == old_sel[a] && sel[b] == old_sel[b]);
                        }
                    }
                    assert forall|j: int, t: int|
                        #![trigger sel[t], candidates@[j]]
                        0 <= j < i + 1 && !sel.contains(j) && 0 <= t < sel.len() && j < sel[t]
                            && candidates@[j].0 == candidates@[sel[t]].0 implies !chars_less(
                        candidates@[j].1@,
                        candidates@[sel[t]].1@,
                    ) by {
                        assert(old_kept[m as int] == candidates@[gone]);
                        if j != gone {
                            assert(!old_sel.contains(j)) by {
                                if old_sel.contains(j) {
                                    let q = choose|q: int| 0 <= q < old_sel.len() && old_sel[q] == j;
                                    assert(q != m);
                                    assert(sel[q] == j);
                                }
                            }
                        }
                        if t == m {
                            assert(sel[t] == i);
                            if j != gone {
                                assert(j != i);
                                assert(keys[old_sel[m as int]] <= keys[j]);
                            }
                            assert(false);
                        } else {
                            assert(sel[t] == old_sel[t]);
                            assert(old_kept[t] == candidates@[old_sel[t]]);
                            if j == gone {
                                assert(old_kept[t].0 == old_kept[m as int].0);
                            } else {
                                assert(old_sel[t] < i);
                            }
                        }
                    }
                }
            } else {
                proof {
                    assert forall|t: int, j: int|
                        0 <= t < sel.len() && 0 <= j < i + 1 && !sel.contains(j) implies keys[#[trigger] sel[t]]
                        <= #[trigger] keys[j] by {
                        if j == i {
                            assert(kept@[t].0 <= kept@[m as int].0);
                        }
                    }
                    assert forall|j: int, t: int|
                        #![trigger sel[t], candidates@[j]]
                        0 <= j < i + 1 && !sel.contains(j) && 0 <= t < sel.len() && j < sel[t]
                            && candidates@[j].0 == candidates@[sel[t]].0 implies !chars_less(
                        candidates@[j].1@,
                        candidates@[sel[t]].1@,
                    ) by {
                        assert(sel[t] < i);
                    }
                }
            }
        } else {
            proof {
                assert(sel.len() == 0);
            }
        }
        i = i + 1;
    }
    let mut r: Vec<String> = Vec::new();
    let mut t: usize = 0;
    while t < kept.len()
        invariant
            t <= kept.len(),
            kept.len() == sel.len(),
            forall|q: int| 0 <= q < sel.len() ==> #[trigger] kept@[q] == candidates@[sel[q]],
            r.len() == t,
            forall|q: int| 0 <= q < t ==> #[trigger] r@[q]@ == candidates@[sel[q]].1@,
        decreases kept.len() - t,
    {
        r.push(kept[t].1.clone());
        t = t + 1;
    }
    proof {
        assert(texts_view(r@) =~= selected_ids(candidates@, sel));
        assert(is_smallest_key_selection(keys, sample_size as nat, sel));
    }
    r
}


// ---------------------------------------------------------------------------
// Merkle data of the diamond-hand list
// ---------------------------------------------------------------------------

/// What is wrong with an account id as a leaf.
#[derive(Debug, Clone, Copy, PartialEq, Eq)]
pub enum LeafFault {
    BadHex(HexDecodeError),
    WrongLength,
}

/// The fault of an account id, or `None` when its digits decode to 20 bytes.
pub open spec fn leaf_fault(id: Seq<char>) -> Option<LeafFault> {
    match prefixed_hex_outcome(id) {
        Err(e) => Some(LeafFault::BadHex(e)),
        Ok(bytes) => if bytes.len() != 20 {
            Some(LeafFault::WrongLength)
        } else {
            None
        },
    }
}

/// The leaf of a well-formed account id: twelve zero bytes, then its 20 bytes.
pub open spec fn account_leaf(id: Seq<char>) -> Seq<u8> {
    Seq::new(12, |i: int| 0u8) + prefixed_hex_outcome(id)->Ok_0
}

/// The leaf of a well-formed account id has 32 bytes: twelve zero bytes,
/// then the 20 bytes that the id's hex digits (after its leading `0x`)
/// spell, in their order: byte `12 + q` is the value of digits `2q` and
/// `2q + 1`, the first of them the high half.
pub proof fn lemma_account_leaf_layout(id: Seq<char>)
    requires
        leaf_fault(id) is None,
    ensures
        unprefixed_digits(id).len() == 40,
        account_leaf(id).len() == 32,
        forall|q: int| 0 <= q < 12 ==> account_leaf(id)[q] == 0u8,
        forall|q: int|
            0 <= q < 20 ==> #[trigger] account_leaf(id)[12 + q] == (hex_byte_value(
                unprefixed_digits(id)[2 * q],
            ) * 16 + hex_byte_value(unprefixed_digits(id)[2 * q + 1])) as u8,
{
    let d = unprefixed_digits(id);
    let b = prefixed_hex_outcome(id)->Ok_0;
    assert(b == hex_decoded(d));
    assert(b.len() == 20);
    assert forall|q: int| 0 <= q < 20 implies #[trigger] account_leaf(id)[12 + q] == (
    hex_byte_value(d[2 * q]) * 16 + hex_byte_value(d[2 * q + 1])) as u8 by {
        assert(account_leaf(id)[12 + q] == b[q]);
    }
}

/// Why the diamond-hand Merkle data could not be built.
#[derive(Debug)]
pub enum DiamondHandsError {
    /// The id is not hexadecimal text.
    InvalidHex { account_id: String, error: HexDecodeError },
    /// The id does not stand for 20 bytes.
    NotTwentyBytes { account_id: String },
}

/// `e` reports the fault of `id`.
pub open spec fn reports_fault(e: DiamondHandsError, id: Seq<char>) -> bool {
    match e {
        DiamondHandsError::InvalidHex { account_id, error } => account_id@ == id && leaf_fault(id)
            == Some(LeafFault::BadHex(error)),
        DiamondHandsError::NotTwentyBytes { account_id } => account_id@ == id && leaf_fault(id)
            == Some(LeafFault::WrongLength),
    }
}

/// `f` is the first position of a faulty id.
pub open spec fn first_fault_at(ids: Seq<Seq<char>>, f: int) -> bool {
    &&& 0 <= f < ids.len()
    &&& leaf_fault(ids[f]) is Some
    &&& forall|j: int| 0 <= j < f ==> leaf_fault(#[trigger] ids[j]) is None
}

/// The leaves of the ids, in order.
pub open spec fn account_leaves(ids: Seq<Seq<char>>) -> Seq<Seq<u8>> {
    ids.map_values(|id: Seq<char>| account_leaf(id))
}

/// The diamond-hand proof map has an entry for each listed id and for
/// nothing else, and an id that is not listed again later holds the proof
/// of its own leaf (its 20 bytes after twelve zero bytes).
pub proof fn lemma_diamond_proofs(ids: Seq<Seq<char>>, i: int)
    requires
        0 <= i < ids.len(),
        forall|j: int| i < j < ids.len() ==> ids[j] != ids[i],
    ensures
        forall|k: Seq<char>| #[trigger] keyed_proofs(ids, all_proof_texts(account_leaves(ids))).contains_key(k)
            <==> ids.contains(k),
        keyed_proofs(ids, all_proof_texts(account_leaves(ids)))[ids[i]] == proof_texts(
            account_leaves(ids),
            account_leaf(ids[i]),
        ),
{
    lemma_keyed_proofs(ids, all_proof_texts(account_leaves(ids)));
}

/// Merkle data of the diamond-hand list.
pub struct DiamondMerkleData {
    /// The 32 root bytes.
    pub root: Vec<u8>,
    /// `0x` followed by the root in lower-case hex.
    pub root_hex: String,
    /// Under each account id, the proof of its leaf.
    pub proofs: Vec<ProofEntry>,
}

/// The leaf of one account id: the id without its leading `0x`, decoded from
/// hex, must give 20 bytes, which are placed after twelve zero bytes.
pub fn account_leaf_bytes(id: &String) -> (r: Result<[u8; 32], DiamondHandsError>)
    ensures
        r is Ok <==> leaf_fault(id@) is None,
        r is Ok ==> r->Ok_0@ == account_leaf(id@),
        r is Ok ==> forall|q: int| 0 <= q < 12 ==> r->Ok_0@[q] == 0u8,
        r is Ok ==> forall|q: int|
            0 <= q < 20 ==> #[trigger] r->Ok_0@[12 + q] == hex_decoded(unprefixed_digits(id@))[q],
        r is Err ==> reports_fault(r->Err_0, id@),
{
    match decode_prefixed_hex(id) {
        Err(e) => Err(DiamondHandsError::InvalidHex { account_id: id.clone(), error: e }),
        Ok(bytes) => {
            if bytes.len() != 20 {
                return Err(DiamondHandsError::NotTwentyBytes { account_id: id.clone() });
            }
            let mut leaf = [0u8; 32];
            let mut k: usize = 0;
            while k < 20
                invariant
                    k <= 20,
                    bytes.len() == 20,
                    forall|q: int| 0 <= q < 12 ==> leaf@[q] == 0u8,
                    forall|q: int| 0 <= q < k ==> leaf@[12 + q] == bytes@[q],
                decreases 20 - k,
            {
                leaf[12 + k] = bytes[k];
                k = k + 1;
            }
            assert(leaf@ =~= account_leaf(id@));
            Ok(leaf)
        },
    }
}

/// Merkle data of the diamond-hand list: `None` for an empty list; the
/// first faulty id, as `account_leaf_bytes` judges it, fails the whole list;
/// otherwise the root over the leaves of all ids, its `0x` hex text, and
/// under each id the proof of its leaf.
pub fn diamond_hands_merkle_data(account_ids: &Vec<String>) -> (r: Result<
    Option<DiamondMerkleData>,
    DiamondHandsError,
>)
    ensures
        account_ids.len() == 0 ==> r is Ok && r->Ok_0 is None,
        r is Err <==> (account_ids.len() > 0 && exists|f: int|
            first_fault_at(texts_view(account_ids@), f)),
        r is Err ==> (exists|f: int|
            first_fault_at(texts_view(account_ids@), f) && reports_fault(
                r->Err_0,
                #[trigger] account_ids@[f]@,
            )),
        (r is Ok && account_ids.len() > 0) ==> r->Ok_0 is Some,
        r is Ok && r->Ok_0 is Some ==> ({
            let d = r->Ok_0->Some_0;
            let leaves = account_leaves(texts_view(account_ids@));
            &&& d.root@ == merkle_root_of(leaves)
            &&& d.root@.len() == 32
            &&& d.root_hex@ == seq!['0', 'x'] + lower_hex(d.root@)
            &&& distinct_keys(d.proofs@)
            &&& all_word_texts(d.proofs@)
            &&& entries_map(d.proofs@) == keyed_proofs(
                texts_view(account_ids@),
                all_proof_texts(leaves),
            )
        }),
{
    if account_ids.len() == 0 {
        return Ok(None);
    }
    let ghost ids = texts_view(account_ids@);
    let mut leaves: Vec<[u8; 32]> = Vec::new();
    let mut i: usize = 0;
    while i < account_ids.len()
        invariant
            i <= account_ids.len(),
            ids == texts_view(account_ids@),
            leaves.len() == i,
            forall|j: int| 0 <= j < i ==> leaf_fault(#[trigger] ids[j]) is None,
            forall|j: int| 0 <= j < i ==> #[trigger] leaves@[j]@ == account_leaf(ids[j]),
        decreases account_ids.len() - i,
    {
        match account_leaf_bytes(&account_ids[i]) {
            Ok(leaf) => {
                leaves.push(leaf);
            },
            Err(e) => {
                proof {
                    assert(first_fault_at(ids, i as int));
                    assert(ids[i as int] == account_ids@[i as int]@);
                }
                return Err(e);
            },
        }
        i = i + 1;
    }
    proof {
        assert forall|f: int| !first_fault_at(ids, f) by {
            if 0 <= f < ids.len() {
                assert(leaf_fault(ids[f]) is None);
            }
        }
        assert(words_view(leaves@) =~= account_leaves(ids));
    }
    let (root, proofs) = merkle_root_and_proofs(&leaves, account_ids);
    let mut root_bytes: Vec<u8> = Vec::new();
    let mut k: usize = 0;
    while k < 32
        invariant
            k <= 32,
            root_bytes@ == root@.subrange(0, k as int),
        decreases 32 - k,
    {
        root_bytes.push(root[k]);
        proof {
            assert(root_bytes@ =~= root@.subrange(0, k + 1));
        }
        k = k + 1;
    }
    assert(root_bytes@ =~= root@);
    let mut root_hex = text("0x");
    let digits = crate::hexcodec::hex_encode(root_bytes.as_slice());
    root_hex.append(digits.as_str());
    proof {
        reveal_strlit("0x");
    }
    Ok(Some(DiamondMerkleData { root: root_bytes, root_hex, proofs }))
}

} // verus!
