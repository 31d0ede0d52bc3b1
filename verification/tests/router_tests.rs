use executionbackup::router::{
    classify_inbound, dispatch_strategy, do_route_normal, route_client_version, route_fcu,
    route_get_payload_v1, route_get_payload_v2, route_get_payload_v3, route_new_payload,
    route_no_node, EngineMethod, EngineResponse, FanoutStrategy, InboundPlan, PayloadForSyncing,
    TransportErrorClass,
};
use executionbackup::types::{
    ExecutionPayload, ExecutionPayloadV1, ExecutionPayloadV2, ExecutionPayloadV3, BlobsBundle,
    ForkchoiceUpdatedResponse, GetPayloadResponseV2, GetPayloadResponseV3, PayloadStatusV1,
    PayloadStatusV1Status, H256, U256,
};
use executionbackup::verify_hash::compute_block_hash;

fn status(s: PayloadStatusV1Status, hash: Option<u8>) -> PayloadStatusV1 {
    PayloadStatusV1 {
        status: s,
        latest_valid_hash: hash.map(|b| H256([b; 32])),
        validation_error: None,
    }
}

fn dummy_v1() -> ExecutionPayloadV1 {
    ExecutionPayloadV1 {
        parent_hash: H256([0; 32]),
        fee_recipient: [0; 20],
        state_root: H256([0; 32]),
        receipts_root: H256([0; 32]),
        logs_bloom: vec![0u8; 256],
        prev_randao: H256([0; 32]),
        block_number: 1,
        gas_limit: 1,
        gas_used: 0,
        timestamp: 1_681_338_432,
        extra_data: Vec::new(),
        base_fee_per_gas: U256([1, 0, 0, 0]),
        block_hash: H256([0; 32]),
        transactions: Vec::new(),
    }
}

fn v2_response(value: u64) -> GetPayloadResponseV2 {
    GetPayloadResponseV2 {
        execution_payload: ExecutionPayloadV2 { base: dummy_v1(), withdrawals: Vec::new() },
        block_value: U256([value, 0, 0, 0]),
    }
}

fn v3_response(value: u64) -> GetPayloadResponseV3 {
    GetPayloadResponseV3 {
        execution_payload: ExecutionPayloadV3 {
            base: ExecutionPayloadV2 { base: dummy_v1(), withdrawals: Vec::new() },
            blob_gas_used: 0,
            excess_blob_gas: 0,
        },
        block_value: U256([value, 0, 0, 0]),
        blobs_bundle: BlobsBundle {
            commitments: Vec::new(),
            proofs: Vec::new(),
            blobs: Vec::new(),
        },
        should_override_builder: false,
    }
}

#[test]
fn dispatch_matrix_per_method() {
    assert_eq!(dispatch_strategy(&EngineMethod::GetPayloadV1), FanoutStrategy::PrimaryOnly);
    assert_eq!(dispatch_strategy(&EngineMethod::GetPayloadV2), FanoutStrategy::BroadcastPayloadsV2);
    assert_eq!(dispatch_strategy(&EngineMethod::GetPayloadV3), FanoutStrategy::BroadcastPayloadsV3);
    assert_eq!(dispatch_strategy(&EngineMethod::NewPayloadV1), FanoutStrategy::BroadcastStatuses);
    assert_eq!(dispatch_strategy(&EngineMethod::NewPayloadV3), FanoutStrategy::BroadcastStatuses);
    assert_eq!(
        dispatch_strategy(&EngineMethod::ForkchoiceUpdatedV2),
        FanoutStrategy::BroadcastFcu
    );
    assert_eq!(dispatch_strategy(&EngineMethod::GetClientVersionV1), FanoutStrategy::BroadcastRaw);
    assert_eq!(
        dispatch_strategy(&EngineMethod::OtherEngine),
        FanoutStrategy::PrimaryAndReplicate
    );
}

#[test]
fn profitability_pick_takes_maximum() {
    // Values 10, 40, 25: the payload worth 40 wins.
    let routed = route_get_payload_v2(7, vec![v2_response(10), v2_response(40), v2_response(25)]);
    assert_eq!(routed.http_status, 200);
    match routed.response {
        EngineResponse::PayloadV2 { id, response } => {
            assert_eq!(id, 7);
            assert_eq!(response.block_value.0, [40, 0, 0, 0]);
        },
        _ => panic!("expected a payload response"),
    }
}

#[test]
fn profitability_pick_with_two_nodes() {
    // S5: one node timed out (absent), the others returned 100 and 250.
    let routed = route_get_payload_v2(1, vec![v2_response(100), v2_response(250)]);
    match routed.response {
        EngineResponse::PayloadV2 { response, .. } => {
            assert_eq!(response.block_value.0, [250, 0, 0, 0]);
        },
        _ => panic!("expected a payload response"),
    }
}

#[test]
fn get_payload_v2_without_responses_errors() {
    let routed = route_get_payload_v2(3, Vec::new());
    assert_eq!(routed.http_status, 200);
    match routed.response {
        EngineResponse::Error { id, message } => {
            assert_eq!(id, 3);
            assert_eq!(message, "No blocks found in EL engine_getPayloadV2 responses");
        },
        _ => panic!("expected an error response"),
    }
}

#[test]
fn get_payload_v3_picks_maximum() {
    let routed = route_get_payload_v3(2, vec![v3_response(5), v3_response(9), v3_response(9)]);
    match routed.response {
        EngineResponse::PayloadV3 { response, .. } => {
            assert_eq!(response.block_value.0, [9, 0, 0, 0]);
        },
        _ => panic!("expected a payload response"),
    }
}

#[test]
fn new_payload_majority_is_returned() {
    // S1: two alive nodes both answer VALID with the same hash.
    let valid = status(PayloadStatusV1Status::Valid, Some(0xab));
    let routed = route_new_payload(
        5,
        &vec![valid.duplicate(), valid.duplicate()],
        600,
        &PayloadForSyncing::Undecodable("unused".to_string()),
        &None,
    );
    assert_eq!(routed.http_status, 200);
    assert!(routed.backfill);
    match routed.response {
        EngineResponse::Status { id, status: s } => {
            assert_eq!(id, 5);
            assert!(s.same(&valid));
        },
        _ => panic!("expected a status response"),
    }
}

#[test]
fn new_payload_stalls_with_verified_syncing_reply() {
    // S2: one INVALID answer among VALIDs; the payload's hash checks out, so
    // the fabricated SYNCING reply goes through and no backfill is owed.
    let mut base = dummy_v1();
    let computed = compute_block_hash(&ExecutionPayload::V1(base.clone()), &None);
    base.block_hash = computed;
    let resps = vec![
        status(PayloadStatusV1Status::Valid, Some(0xab)),
        status(PayloadStatusV1Status::Valid, Some(0xab)),
        status(PayloadStatusV1Status::Invalid, Some(0xde)),
    ];
    let routed = route_new_payload(
        8,
        &resps,
        600,
        &PayloadForSyncing::Decoded(ExecutionPayload::V1(base)),
        &None,
    );
    assert_eq!(routed.http_status, 200);
    assert!(!routed.backfill);
    assert!(matches!(routed.response, EngineResponse::SyncingNewPayload { id: 8 }));
}

#[test]
fn new_payload_reports_hash_mismatch_instead_of_false_syncing() {
    let base = dummy_v1();  // carries a zero block hash, which cannot match
    // Two disagreeing answers at threshold 1.0: no majority.
    let resps = vec![
        status(PayloadStatusV1Status::Valid, Some(0xab)),
        status(PayloadStatusV1Status::Syncing, None),
    ];
    let routed = route_new_payload(
        9,
        &resps,
        1000,
        &PayloadForSyncing::Decoded(ExecutionPayload::V1(base)),
        &None,
    );
    match routed.response {
        EngineResponse::HashMismatch { mismatch } => {
            assert_eq!(mismatch.expected.0, [0; 32]);
            assert_ne!(mismatch.computed.0, [0; 32]);
        },
        _ => panic!("expected a hash mismatch"),
    }
}

#[test]
fn new_payload_undecodable_reports_decode_error() {
    let resps = Vec::new();
    let routed = route_new_payload(
        4,
        &resps,
        600,
        &PayloadForSyncing::Undecodable("bad payload".to_string()),
        &None,
    );
    match routed.response {
        EngineResponse::Undecodable { message } => assert_eq!(message, "bad payload"),
        _ => panic!("expected the decode error to be reported"),
    }
}

#[test]
fn fcu_keeps_first_non_null_payload_id() {
    // S4: same status, payload ids differ; the non-null one is preserved.
    let resps = vec![
        ForkchoiceUpdatedResponse {
            payload_status: status(PayloadStatusV1Status::Valid, Some(0xab)),
            payload_id: Some("0x01".to_string()),
        },
        ForkchoiceUpdatedResponse {
            payload_status: status(PayloadStatusV1Status::Valid, Some(0xab)),
            payload_id: None,
        },
    ];
    let routed = route_fcu(6, &resps, 600);
    assert_eq!(routed.http_status, 200);
    assert!(routed.backfill);
    match routed.response {
        EngineResponse::Fcu { id, status: s, payload_id } => {
            assert_eq!(id, 6);
            assert_eq!(s.status, PayloadStatusV1Status::Valid);
            assert_eq!(payload_id, Some("0x01".to_string()));
        },
        _ => panic!("expected a forkchoice response"),
    }
}

#[test]
fn fcu_reducer_error_fabricates_syncing_envelope() {
    let resps = vec![
        ForkchoiceUpdatedResponse {
            payload_status: status(PayloadStatusV1Status::Valid, Some(0xab)),
            payload_id: None,
        },
        ForkchoiceUpdatedResponse {
            payload_status: status(PayloadStatusV1Status::Invalid, Some(0xde)),
            payload_id: None,
        },
        ForkchoiceUpdatedResponse {
            payload_status: status(PayloadStatusV1Status::Valid, Some(0xab)),
            payload_id: None,
        },
    ];
    let routed = route_fcu(2, &resps, 600);
    assert!(!routed.backfill);
    assert!(matches!(routed.response, EngineResponse::SyncingFcu { id: 2 }));
}

#[test]
fn get_payload_v1_passes_primary_body_through() {
    let routed = route_get_payload_v1(1, Ok(("the body".to_string(), 200)));
    assert_eq!(routed.http_status, 200);
    assert!(!routed.demote_primary);
    match routed.response {
        EngineResponse::Raw { body } => assert_eq!(body, "the body"),
        _ => panic!("expected a passthrough"),
    }
}

#[test]
fn get_payload_v1_demotes_on_connect_class_errors() {
    for class in [
        TransportErrorClass::Connect,
        TransportErrorClass::Timeout,
        TransportErrorClass::RequestBuild,
    ] {
        let routed = route_get_payload_v1(1, Err((class, "boom".to_string())));
        assert_eq!(routed.http_status, 200);
        assert!(routed.demote_primary);
    }
    let routed = route_get_payload_v1(1, Err((TransportErrorClass::Other, "boom".to_string())));
    assert!(!routed.demote_primary);
}

#[test]
fn no_node_gives_500_error() {
    let routed = route_no_node(3);
    assert_eq!(routed.http_status, 500);
    match routed.response {
        EngineResponse::Error { id, message } => {
            assert_eq!(id, 3);
            assert_eq!(message, "No nodes available");
        },
        _ => panic!("expected an error"),
    }
}

#[test]
fn normal_route_passthrough_and_failures() {
    // S6: the primary's verbatim reply is passed through.
    let routed = do_route_normal(Ok(1), Some(Ok(("reply".to_string(), 200))));
    assert_eq!(routed.http_status, 200);
    assert!(matches!(routed.response, EngineResponse::Raw { .. }));
    // A primary transport failure becomes a JSON-RPC error body with HTTP 200.
    let routed = do_route_normal(Ok(1), Some(Err("refused".to_string())));
    assert_eq!(routed.http_status, 200);
    match routed.response {
        EngineResponse::Error { id, message } => {
            assert_eq!(id, 1);
            assert_eq!(message, "refused");
        },
        _ => panic!("expected an error"),
    }
    // No node at all: a 500 with the request's own id.
    let routed = do_route_normal(Ok(42), None);
    assert_eq!(routed.http_status, 500);
    match routed.response {
        EngineResponse::Error { id, message } => {
            assert_eq!(id, 42);
            assert_eq!(message, "No nodes available");
        },
        _ => panic!("expected an error"),
    }
}

#[test]
fn client_version_collects_all_results() {
    let routed = route_client_version(1, vec!["a".to_string(), "b".to_string()]);
    match routed.response {
        EngineResponse::ClientVersions { results, .. } => {
            assert_eq!(results, vec!["a".to_string(), "b".to_string()]);
        },
        _ => panic!("expected the collected versions"),
    }
}

#[test]
fn inbound_classification() {
    // Engine requests need a readable bearer; S6's non-engine request
    // without one gets a freshly minted token instead.
    assert_eq!(classify_inbound(false, false, false, false, false, false), InboundPlan::BadBody);
    assert_eq!(classify_inbound(true, false, false, false, false, false), InboundPlan::NoMethodField);
    assert_eq!(
        classify_inbound(true, true, true, false, true, true),
        InboundPlan::BadEngineRequest
    );
    assert_eq!(classify_inbound(true, true, true, true, false, false), InboundPlan::NoAuthHeader);
    assert_eq!(classify_inbound(true, true, true, true, true, false), InboundPlan::UnreadableAuth);
    assert_eq!(classify_inbound(true, true, true, true, true, true), InboundPlan::Engine);
    assert_eq!(classify_inbound(true, true, false, false, false, false), InboundPlan::NormalMintJwt);
    assert_eq!(
        classify_inbound(true, true, false, false, true, false),
        InboundPlan::UnreadableAuth
    );
    assert_eq!(
        classify_inbound(true, true, false, false, true, true),
        InboundPlan::NormalWithBearer
    );
}
