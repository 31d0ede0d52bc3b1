use executionbackup::reducer::{fcu_logic, fcu_majority, FcuLogicError};
use executionbackup::types::{PayloadStatusV1, PayloadStatusV1Status, H256};

fn status(s: PayloadStatusV1Status, hash: Option<u8>, err: Option<&str>) -> PayloadStatusV1 {
    PayloadStatusV1 {
        status: s,
        latest_valid_hash: hash.map(|b| H256([b; 32])),
        validation_error: err.map(|e| e.to_string()),
    }
}

#[test]
fn empty_responses_give_no_responses() {
    let r = fcu_logic(&Vec::new(), 600);
    assert!(matches!(r, Err(FcuLogicError::NoResponses)));
}

#[test]
fn two_of_three_matching_meet_threshold() {
    // [a, a, b] at 0.6: two matching answers meet floor(3 * 0.6) = 1.
    let a = status(PayloadStatusV1Status::Valid, Some(0xab), None);
    let b = status(PayloadStatusV1Status::Syncing, None, None);
    let r = fcu_logic(&vec![a.clone(), a.clone(), b], 600).unwrap();
    assert!(r.same(&a));
}

#[test]
fn four_distinct_answers_have_no_majority() {
    let r = fcu_logic(
        &vec![
            status(PayloadStatusV1Status::Valid, Some(1), None),
            status(PayloadStatusV1Status::Syncing, None, None),
            status(PayloadStatusV1Status::Accepted, None, None),
            status(PayloadStatusV1Status::Valid, Some(2), None),
        ],
        600,
    );
    assert!(matches!(r, Err(FcuLogicError::NoMajority)));
}

#[test]
fn one_invalid_response_stalls_a_valid_majority() {
    // S2: VALID, VALID, INVALID: safety wins, the reducer stalls.
    let valid = status(PayloadStatusV1Status::Valid, Some(0xab), None);
    let invalid = status(PayloadStatusV1Status::Invalid, Some(0xde), None);
    let r = fcu_logic(&vec![valid.clone(), valid, invalid], 600);
    assert!(matches!(r, Err(FcuLogicError::OneNodeIsInvalid)));
}

#[test]
fn invalid_majority_is_returned_verbatim() {
    // S3: INVALID, INVALID, VALID: the modal invalid answer comes back as is.
    let invalid = status(PayloadStatusV1Status::Invalid, Some(0xde), None);
    let valid = status(PayloadStatusV1Status::Valid, Some(0xab), None);
    let r = fcu_logic(&vec![invalid.clone(), invalid.clone(), valid], 600).unwrap();
    assert!(r.same(&invalid));
    assert_eq!(r.status, PayloadStatusV1Status::Invalid);
    match r.latest_valid_hash {
        Some(h) => assert_eq!(h.0, [0xde; 32]),
        None => panic!("latest valid hash lost"),
    }
}

#[test]
fn invalid_block_hash_also_stalls() {
    let valid = status(PayloadStatusV1Status::Valid, Some(0xab), None);
    let ibh = status(PayloadStatusV1Status::InvalidBlockHash, None, None);
    let r = fcu_logic(&vec![valid.clone(), valid, ibh], 600);
    assert!(matches!(r, Err(FcuLogicError::OneNodeIsInvalid)));
}

#[test]
fn equality_is_over_all_three_fields() {
    // Same status but different latestValidHash must not be counted together.
    let a = status(PayloadStatusV1Status::Valid, Some(1), None);
    let b = status(PayloadStatusV1Status::Valid, Some(2), None);
    let c = status(PayloadStatusV1Status::Valid, Some(1), Some("late"));
    assert!(!a.same(&b));
    assert!(!a.same(&c));
    assert!(a.same(&a.duplicate()));
}

#[test]
fn draw_returns_the_first_answer() {
    let a = status(PayloadStatusV1Status::Valid, Some(1), None);
    let b = status(PayloadStatusV1Status::Syncing, None, None);
    let r = fcu_majority(&vec![a.clone(), b], 0).unwrap();
    assert!(r.same(&a));
}

#[test]
fn majority_none_when_threshold_unmet() {
    let a = status(PayloadStatusV1Status::Valid, Some(1), None);
    let b = status(PayloadStatusV1Status::Syncing, None, None);
    let c = status(PayloadStatusV1Status::Accepted, None, None);
    let d = status(PayloadStatusV1Status::Valid, Some(9), None);
    assert!(fcu_majority(&vec![a, b, c, d], 600).is_none());
}

#[test]
fn single_response_is_a_majority() {
    // floor(1 * 0.6) = 0, so one answer always carries.
    let a = status(PayloadStatusV1Status::Valid, Some(1), None);
    let r = fcu_majority(&vec![a.clone()], 600).unwrap();
    assert!(r.same(&a));
}
