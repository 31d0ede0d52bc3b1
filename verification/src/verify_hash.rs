//! The block-hash verifier: recomputes the hash of an execution payload by
//! RLP-encoding its block header in canonical order and hashing it, and
//! compares the result with the hash the payload carries.

use crate::rlp::{
    append_rlp_bytes, append_rlp_list, append_rlp_u256, append_rlp_u64, lemma_rlp_bytes_len,
    lemma_rlp_u256_len, lemma_rlp_uint_len, rlp_bytes, rlp_list, rlp_u256, rlp_uint,
};
use crate::types::{ExecutionPayload, ExecutionPayloadV1, H256, Withdrawal};
use vstd::prelude::*;

verus! {

/// The Keccak-256 digest of a byte string.
///
/// The digest itself is left unnamed beyond this: nothing here restates the
/// Keccak permutation.
pub uninterp spec fn keccak_of(data: Seq<u8>) -> Seq<u8>;

/// The root of the Merkle-Patricia trie holding the given items keyed by
/// their RLP-encoded position.
pub uninterp spec fn ordered_trie_root_of(items: Seq<Seq<u8>>) -> Seq<u8>;

/// The byte strings held by a vector of byte vectors.
pub open spec fn byte_seqs(items: Seq<Vec<u8>>) -> Seq<Seq<u8>> {
    items.map_values(|v: Vec<u8>| v@)
}

/// Relies on `keccak_hash::keccak`: the 32-byte Keccak-256 digest, a function
/// of the input bytes alone.
#[verifier::external_body]
fn keccak256(data: &Vec<u8>) -> (r: H256)
    ensures
        r@ == keccak_of(data@),
        r@.len() == 32,
{
    H256(keccak_hash::keccak(data.as_slice()).0)
}

/// Relies on `triehash::ordered_trie_root` with Keccak-256 hashing: the
/// 32-byte Merkle-Patricia root of the items keyed by RLP-encoded index, a
/// function of the items alone.
#[verifier::external_body]
fn ordered_trie_root(items: &Vec<Vec<u8>>) -> (r: H256)
    ensures
        r@ == ordered_trie_root_of(byte_seqs(items@)),
        r@.len() == 32,
{
    H256(triehash::ordered_trie_root::<keccak_hasher::KeccakHasher, _>(items))
}

/// The hash of the empty ommers list: Keccak-256 of the RLP empty list.
pub open spec fn spec_empty_list_hash() -> Seq<u8> {
    keccak_of(seq![0xc0u8])
}

/// The canonical RLP of one withdrawal: the list
/// `[index, validator_index, address, amount]`.
pub open spec fn spec_withdrawal_rlp(w: Withdrawal) -> Seq<u8> {
    rlp_list(
        rlp_uint(w.index as nat) + rlp_uint(w.validator_index as nat) + rlp_bytes(w.address@)
            + rlp_uint(w.amount as nat),
    )
}

/// The transactions root: the ordered trie over the raw transaction bytes.
pub open spec fn spec_tx_root(p: ExecutionPayloadV1) -> Seq<u8> {
    ordered_trie_root_of(byte_seqs(p.transactions@))
}

/// The withdrawals root: the ordered trie over the RLP-encoded withdrawals.
pub open spec fn spec_withdrawals_root(ws: Seq<Withdrawal>) -> Seq<u8> {
    ordered_trie_root_of(ws.map_values(|w: Withdrawal| spec_withdrawal_rlp(w)))
}

/// The RLP of the header fields every payload version carries, in canonical
/// order.
pub open spec fn spec_header_common(p: ExecutionPayloadV1, tx_root: Seq<u8>) -> Seq<u8> {
    rlp_bytes(p.parent_hash@) + rlp_bytes(spec_empty_list_hash()) + rlp_bytes(p.fee_recipient@)
        + rlp_bytes(p.state_root@) + rlp_bytes(tx_root) + rlp_bytes(p.receipts_root@) + rlp_bytes(
        p.logs_bloom@,
    ) + rlp_uint(0) + rlp_uint(p.block_number as nat) + rlp_uint(p.gas_limit as nat) + rlp_uint(
        p.gas_used as nat,
    ) + rlp_uint(p.timestamp as nat) + rlp_bytes(p.extra_data@) + rlp_bytes(p.prev_randao@)
        + rlp_bytes(seq![0u8, 0u8, 0u8, 0u8, 0u8, 0u8, 0u8, 0u8]) + rlp_u256(p.base_fee_per_gas)
}

/// The RLP payload of the execution block header, fields in canonical order;
/// the optional tail fields appear from Shanghai (withdrawals root) and
/// Cancun (blob gas accounting, parent beacon block root) on.
pub open spec fn spec_header_payload(
    p: ExecutionPayloadV1,
    tx_root: Seq<u8>,
    w_root: Option<Seq<u8>>,
    blob_gas: Option<(u64, u64)>,
    parent_beacon_block_root: Option<Seq<u8>>,
) -> Seq<u8> {
    spec_header_common(p, tx_root) + (match w_root {
        Some(w) => rlp_bytes(w),
        None => Seq::empty(),
    }) + (match blob_gas {
        Some((bg, ebg)) => rlp_uint(bg as nat) + rlp_uint(ebg as nat),
        None => Seq::empty(),
    }) + (match parent_beacon_block_root {
        Some(r) => rlp_bytes(r),
        None => Seq::empty(),
    })
}

/// The withdrawals root carried by the header for this payload version, if
/// any.
pub open spec fn spec_payload_w_root(payload: ExecutionPayload) -> Option<Seq<u8>> {
    match payload {
        ExecutionPayload::V1(_) => None,
        ExecutionPayload::V2(p) => Some(spec_withdrawals_root(p.withdrawals@)),
        ExecutionPayload::V3(p) => Some(spec_withdrawals_root(p.base.withdrawals@)),
    }
}

/// The blob-gas header fields for this payload version, if any.
pub open spec fn spec_payload_blob_gas(payload: ExecutionPayload) -> Option<(u64, u64)> {
    match payload {
        ExecutionPayload::V3(p) => Some((p.blob_gas_used, p.excess_blob_gas)),
        _ => None,
    }
}

/// The block hash a conforming execution client computes for this payload:
/// Keccak-256 of the RLP list of the header fields.
pub open spec fn spec_block_hash(
    payload: ExecutionPayload,
    parent_beacon_block_root: Option<H256>,
) -> Seq<u8> {
    let base = payload.spec_base();
    keccak_of(
        rlp_list(
            spec_header_payload(
                base,
                spec_tx_root(base),
                spec_payload_w_root(payload),
                spec_payload_blob_gas(payload),
                match parent_beacon_block_root {
                    Some(h) => Some(h@),
                    None => None,
                },
            ),
        ),
    )
}

/// What the verifier needs of a payload: the bloom filter has its fixed
/// width, and the extra data leaves room for the rest of the header in one
/// buffer.
pub open spec fn spec_hashable(payload: ExecutionPayload) -> bool {
    &&& payload.spec_base().logs_bloom@.len() == 256
    &&& payload.spec_base().extra_data@.len() + 4096 <= usize::MAX
}

/// A block-hash mismatch: the hash the payload carries and the hash computed
/// from its fields.
#[derive(Clone, Copy, Debug)]
pub struct BlockHashMismatch {
    pub expected: H256,
    pub computed: H256,
}

/// Keccak-256 of the one-byte RLP empty list.
fn empty_list_hash() -> (r: H256)
    ensures
        r@ == spec_empty_list_hash(),
        r@.len() == 32,
{
    let mut v: Vec<u8> = Vec::new();
    v.push(0xc0);
    assert(v@ =~= seq![0xc0u8]);
    keccak256(&v)
}

/// Encodes one withdrawal as its canonical RLP list.
fn encode_withdrawal(w: &Withdrawal) -> (r: Vec<u8>)
    ensures
        r@ == spec_withdrawal_rlp(*w),
{
    proof {
        lemma_rlp_uint_len(w.index as nat);
        lemma_rlp_uint_len(w.validator_index as nat);
        lemma_rlp_uint_len(w.amount as nat);
    }
    let mut fields: Vec<u8> = Vec::new();
    append_rlp_u64(&mut fields, w.index);
    append_rlp_u64(&mut fields, w.validator_index);
    append_rlp_bytes(&mut fields, w.address.as_slice());
    append_rlp_u64(&mut fields, w.amount);
    let mut r: Vec<u8> = Vec::new();
    append_rlp_list(&mut r, &fields);
    assert(r@ =~= spec_withdrawal_rlp(*w));
    r
}

/// Computes the withdrawals root: the ordered trie over the encoded
/// withdrawals.
fn withdrawals_root(ws: &Vec<Withdrawal>) -> (r: H256)
    ensures
        r@ == spec_withdrawals_root(ws@),
        r@.len() == 32,
{
    let mut items: Vec<Vec<u8>> = Vec::new();
    let mut k: usize = 0;
    while k < ws.len()
        invariant
            k <= ws@.len(),
            items@.len() == k,
            forall|t: int| 0 <= t < k ==> items@[t]@ == spec_withdrawal_rlp(ws@[t]),
        decreases ws@.len() - k,
    {
        items.push(encode_withdrawal(&ws[k]));
        k += 1;
    }
    assert(byte_seqs(items@) =~= ws@.map_values(|w: Withdrawal| spec_withdrawal_rlp(w)));
    ordered_trie_root(&items)
}

/// Recomputes the block hash of `payload` from its fields.
pub fn compute_block_hash(
    payload: &ExecutionPayload,
    parent_beacon_block_root: &Option<H256>,
) -> (r: H256)
    requires
        spec_hashable(*payload),
    ensures
        r@ == spec_block_hash(*payload, *parent_beacon_block_root),
        r@.len() == 32,
{
    let base = payload.base();
    let tx_root = ordered_trie_root(&base.transactions);
    let w_root: Option<H256> = match payload {
        ExecutionPayload::V1(_) => None,
        ExecutionPayload::V2(p) => Some(withdrawals_root(&p.withdrawals)),
        ExecutionPayload::V3(p) => Some(withdrawals_root(&p.base.withdrawals)),
    };
    let mut buf = header_common(base, &tx_root);
    if let Some(w) = &w_root {
        append_rlp_bytes(&mut buf, w.0.as_slice());
    }
    if let ExecutionPayload::V3(p) = payload {
        proof {
            lemma_rlp_uint_len(p.blob_gas_used as nat);
            lemma_rlp_uint_len(p.excess_blob_gas as nat);
        }
        append_rlp_u64(&mut buf, p.blob_gas_used);
        append_rlp_u64(&mut buf, p.excess_blob_gas);
    }
    if let Some(root) = parent_beacon_block_root {
        append_rlp_bytes(&mut buf, root.0.as_slice());
    }
    assert(buf@ =~= spec_header_payload(
        *base,
        spec_tx_root(*base),
        spec_payload_w_root(*payload),
        spec_payload_blob_gas(*payload),
        match *parent_beacon_block_root {
            Some(h) => Some(h@),
            None => None,
        },
    ));
    let mut framed: Vec<u8> = Vec::new();
    append_rlp_list(&mut framed, &buf);
    keccak256(&framed)
}

/// Encodes the header fields common to all payload versions.
fn header_common(base: &ExecutionPayloadV1, tx_root: &H256) -> (buf: Vec<u8>)
    requires
        base.logs_bloom@.len() == 256,
        base.extra_data@.len() + 4096 <= usize::MAX,
        tx_root@.len() == 32,
    ensures
        buf@ == spec_header_common(*base, tx_root@),
        buf@.len() <= base.extra_data@.len() + 1200,
{
    let ommers = empty_list_hash();
    proof {
        lemma_rlp_uint_len(0);
        lemma_rlp_uint_len(base.block_number as nat);
        lemma_rlp_uint_len(base.gas_limit as nat);
        lemma_rlp_uint_len(base.gas_used as nat);
        lemma_rlp_uint_len(base.timestamp as nat);
        lemma_rlp_bytes_len(base.extra_data@);
        lemma_rlp_bytes_len(base.logs_bloom@);
        lemma_rlp_u256_len(base.base_fee_per_gas);
    }
    let mut buf: Vec<u8> = Vec::new();
    append_rlp_bytes(&mut buf, base.parent_hash.0.as_slice());
    append_rlp_bytes(&mut buf, ommers.0.as_slice());
    append_rlp_bytes(&mut buf, base.fee_recipient.as_slice());
    append_rlp_bytes(&mut buf, base.state_root.0.as_slice());
    append_rlp_bytes(&mut buf, tx_root.0.as_slice());
    append_rlp_bytes(&mut buf, base.receipts_root.0.as_slice());
    append_rlp_bytes(&mut buf, base.logs_bloom.as_slice());
    append_rlp_u64(&mut buf, 0);
    append_rlp_u64(&mut buf, base.block_number);
    append_rlp_u64(&mut buf, base.gas_limit);
    append_rlp_u64(&mut buf, base.gas_used);
    append_rlp_u64(&mut buf, base.timestamp);
    append_rlp_bytes(&mut buf, base.extra_data.as_slice());
    append_rlp_bytes(&mut buf, base.prev_randao.0.as_slice());
    let nonce: [u8; 8] = [0, 0, 0, 0, 0, 0, 0, 0];
    assert(nonce@ =~= seq![0u8, 0u8, 0u8, 0u8, 0u8, 0u8, 0u8, 0u8]);
    append_rlp_bytes(&mut buf, nonce.as_slice());
    append_rlp_u256(&mut buf, &base.base_fee_per_gas);
    buf
}

/// Verifies that the block hash carried by `payload` is the hash of its
/// header: returns `Ok` exactly when they agree, and otherwise the carried
/// and the computed hash.
pub fn verify_payload_block_hash(
    payload: &ExecutionPayload,
    parent_beacon_block_root: &Option<H256>,
) -> (r: Result<(), BlockHashMismatch>)
    requires
        spec_hashable(*payload),
    ensures
        r is Ok <==> payload.spec_base().block_hash@ == spec_block_hash(
            *payload,
            *parent_beacon_block_root,
        ),
        r matches Err(e) ==> e.expected@ == payload.spec_base().block_hash@ && e.computed@
            == spec_block_hash(*payload, *parent_beacon_block_root),
{
    let computed = compute_block_hash(payload, parent_beacon_block_root);
    let expected = payload.base().block_hash;
    if expected.same(&computed) {
        Ok(())
    } else {
        Err(BlockHashMismatch { expected, computed })
    }
}

} // verus!
