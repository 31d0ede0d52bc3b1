use executionbackup::types::{
    ExecutionPayload, ExecutionPayloadV1, ExecutionPayloadV2, ExecutionPayloadV3, Withdrawal,
    H256, U256,
};
use executionbackup::verify_hash::{compute_block_hash, verify_payload_block_hash};

fn h32(s: &str) -> [u8; 32] {
    let bytes = hex::decode(s).unwrap();
    let mut out = [0u8; 32];
    out.copy_from_slice(&bytes);
    out
}

fn base_payload() -> ExecutionPayloadV1 {
    ExecutionPayloadV1 {
        parent_hash: H256([0x11; 32]),
        fee_recipient: [0x22; 20],
        state_root: H256([0x33; 32]),
        receipts_root: H256([0x44; 32]),
        logs_bloom: vec![0u8; 256],
        prev_randao: H256([0x55; 32]),
        block_number: 1000,
        gas_limit: 30_000_000,
        gas_used: 21_000,
        timestamp: 1_681_338_432,
        extra_data: Vec::new(),
        base_fee_per_gas: U256([7, 0, 0, 0]),
        block_hash: H256([0; 32]),
        transactions: Vec::new(),
    }
}

#[test]
fn v1_block_hash_matches_reference_vector() {
    let payload = ExecutionPayload::V1(base_payload());
    let got = compute_block_hash(&payload, &None);
    assert_eq!(got.0, h32("880a60a4a7ffb1663bdb6706ea862589df62073f3b1a6ae6db0ac188de992f95"));
}

#[test]
fn v2_block_hash_matches_reference_vector() {
    let payload = ExecutionPayload::V2(ExecutionPayloadV2 {
        base: base_payload(),
        withdrawals: Vec::new(),
    });
    let got = compute_block_hash(&payload, &None);
    assert_eq!(got.0, h32("747a68a0194db9cc05f1e1835bc71b6409ed724809b215a4c88ae2bdba0073b0"));
}

#[test]
fn v2_block_hash_with_one_withdrawal_matches_reference_vector() {
    let payload = ExecutionPayload::V2(ExecutionPayloadV2 {
        base: base_payload(),
        withdrawals: vec![Withdrawal {
            index: 5,
            validator_index: 9,
            address: [0x66; 20],
            amount: 1234,
        }],
    });
    let got = compute_block_hash(&payload, &None);
    assert_eq!(got.0, h32("417a8ca7695a95004572ff964fd3c759ad37bef606f16cba1c1f35504d7ab2a7"));
}

#[test]
fn v3_block_hash_matches_reference_vector() {
    let payload = ExecutionPayload::V3(ExecutionPayloadV3 {
        base: ExecutionPayloadV2 { base: base_payload(), withdrawals: Vec::new() },
        blob_gas_used: 0,
        excess_blob_gas: 0,
    });
    let got = compute_block_hash(&payload, &Some(H256([0x77; 32])));
    assert_eq!(got.0, h32("58a921173ab274e09cbc032aeef921ce5b26070acc6c297f93ea044b2d745ede"));
}

#[test]
fn verification_round_trip_accepts_computed_hash() {
    // A payload whose block hash was computed by a conforming client passes.
    let mut base = base_payload();
    let computed = compute_block_hash(&ExecutionPayload::V1(base.clone()), &None);
    base.block_hash = computed;
    assert!(verify_payload_block_hash(&ExecutionPayload::V1(base), &None).is_ok());
}

#[test]
fn verification_rejects_wrong_hash() {
    let mut base = base_payload();
    base.block_hash = H256([0xee; 32]);
    let err = verify_payload_block_hash(&ExecutionPayload::V1(base), &None).unwrap_err();
    assert_eq!(err.expected.0, [0xee; 32]);
    assert_eq!(
        err.computed.0,
        h32("880a60a4a7ffb1663bdb6706ea862589df62073f3b1a6ae6db0ac188de992f95")
    );
}

#[test]
fn parent_beacon_root_changes_the_hash() {
    let payload = ExecutionPayload::V3(ExecutionPayloadV3 {
        base: ExecutionPayloadV2 { base: base_payload(), withdrawals: Vec::new() },
        blob_gas_used: 0,
        excess_blob_gas: 0,
    });
    let a = compute_block_hash(&payload, &Some(H256([0x77; 32])));
    let b = compute_block_hash(&payload, &Some(H256([0x78; 32])));
    assert_ne!(a.0, b.0);
}
