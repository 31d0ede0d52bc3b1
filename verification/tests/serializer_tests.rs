use executionbackup::fork::{ForkConfig, ForkName};
use executionbackup::router::EngineMethod;
use executionbackup::serializer::{
    newpayload_serializer, NewPayloadSerializerError, PayloadDecodePlan, RawParamsShape,
};

const SHANGHAI_TS: u64 = 1606824000 + 194048 * 32 * 12;
const CANCUN_TS: u64 = 1606824000 + 269568 * 32 * 12;

fn cfg() -> ForkConfig {
    ForkConfig::mainnet()
}

#[test]
fn params_must_be_an_array() {
    let shape = RawParamsShape { array_len: None, timestamp: None };
    let r = newpayload_serializer(&EngineMethod::NewPayloadV2, &shape, &cfg());
    assert_eq!(r, Err(NewPayloadSerializerError::ParamsNotArray));
}

#[test]
fn v3_needs_exactly_three_params() {
    let shape = RawParamsShape { array_len: Some(2), timestamp: None };
    let r = newpayload_serializer(&EngineMethod::NewPayloadV3, &shape, &cfg());
    assert_eq!(r, Err(NewPayloadSerializerError::BadV3ParamCount));
    let shape = RawParamsShape { array_len: Some(3), timestamp: None };
    let r = newpayload_serializer(&EngineMethod::NewPayloadV3, &shape, &cfg());
    assert_eq!(r, Ok(PayloadDecodePlan::DecodeV3Triple));
}

#[test]
fn v1_v2_need_exactly_one_param() {
    let shape = RawParamsShape { array_len: Some(2), timestamp: Some(Some(SHANGHAI_TS)) };
    let r = newpayload_serializer(&EngineMethod::NewPayloadV2, &shape, &cfg());
    assert_eq!(r, Err(NewPayloadSerializerError::BadParamCount));
}

#[test]
fn missing_timestamp_is_rejected() {
    let shape = RawParamsShape { array_len: Some(1), timestamp: None };
    let r = newpayload_serializer(&EngineMethod::NewPayloadV2, &shape, &cfg());
    assert_eq!(r, Err(NewPayloadSerializerError::NoTimestamp));
}

#[test]
fn unreadable_timestamp_is_rejected() {
    let shape = RawParamsShape { array_len: Some(1), timestamp: Some(None) };
    let r = newpayload_serializer(&EngineMethod::NewPayloadV2, &shape, &cfg());
    assert_eq!(r, Err(NewPayloadSerializerError::BadTimestamp));
}

#[test]
fn pre_genesis_timestamp_has_no_fork() {
    let shape = RawParamsShape { array_len: Some(1), timestamp: Some(Some(1_000_000)) };
    let r = newpayload_serializer(&EngineMethod::NewPayloadV1, &shape, &cfg());
    assert_eq!(r, Err(NewPayloadSerializerError::UnknownFork));
}

#[test]
fn variant_follows_the_timestamp_fork() {
    let merge = RawParamsShape { array_len: Some(1), timestamp: Some(Some(1606824000)) };
    assert_eq!(
        newpayload_serializer(&EngineMethod::NewPayloadV1, &merge, &cfg()),
        Ok(PayloadDecodePlan::DecodeSingle(ForkName::Merge))
    );
    let shanghai = RawParamsShape { array_len: Some(1), timestamp: Some(Some(SHANGHAI_TS)) };
    assert_eq!(
        newpayload_serializer(&EngineMethod::NewPayloadV2, &shanghai, &cfg()),
        Ok(PayloadDecodePlan::DecodeSingle(ForkName::Shanghai))
    );
    // A Cancun timestamp through the V1|V2 path is tolerated.
    let cancun = RawParamsShape { array_len: Some(1), timestamp: Some(Some(CANCUN_TS)) };
    assert_eq!(
        newpayload_serializer(&EngineMethod::NewPayloadV2, &cancun, &cfg()),
        Ok(PayloadDecodePlan::DecodeSingle(ForkName::Cancun))
    );
}
