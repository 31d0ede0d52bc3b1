//! Typing an `engine_newPayload` request: from the shape of its raw params
//! array, decide which payload variant the body must be decoded as.

use crate::fork::{spec_timestamp_to_version, timestamp_to_version, ForkConfig, ForkName};
use crate::router::EngineMethod;
use vstd::prelude::*;

verus! {

/// Why a `newPayload` request could not be typed.
#[derive(Clone, Copy, Debug, PartialEq, Eq, Structural)]
pub enum NewPayloadSerializerError {
    /// The params field is not an array.
    ParamsNotArray,
    /// `engine_newPayloadV3` params must have exactly three elements.
    BadV3ParamCount,
    /// `engine_newPayloadV1|V2` params must have exactly one element.
    BadParamCount,
    /// The payload has no timestamp field.
    NoTimestamp,
    /// The payload timestamp is not representable as a 64-bit quantity.
    BadTimestamp,
    /// The timestamp falls before beacon genesis, so no fork governs it.
    UnknownFork,
}

/// What the surface could read of the raw params before decoding payloads:
/// the array length (`None` when params is no array), and the timestamp
/// peeked from the first element (`None` when absent, `Some(None)` when
/// present but not a 64-bit quantity).
#[derive(Clone, Copy, Debug)]
pub struct RawParamsShape {
    pub array_len: Option<usize>,
    pub timestamp: Option<Option<u64>>,
}

/// How the params must be decoded.
#[derive(Clone, Copy, Debug, PartialEq, Eq, Structural)]
pub enum PayloadDecodePlan {
    /// Decode `[ExecutionPayloadV3, versioned_hashes, parent_beacon_block_root]`.
    DecodeV3Triple,
    /// Decode the single param as the payload variant of the given fork.
    DecodeSingle(ForkName),
}

/// The typing decision for a `newPayload` request of the given method whose
/// params have the given shape.
pub open spec fn spec_newpayload_plan(
    method: EngineMethod,
    shape: RawParamsShape,
    cfg: ForkConfig,
) -> Result<PayloadDecodePlan, NewPayloadSerializerError> {
    match shape.array_len {
        None => Err(NewPayloadSerializerError::ParamsNotArray),
        Some(len) => {
            if method == EngineMethod::NewPayloadV3 {
                if len != 3 {
                    Err(NewPayloadSerializerError::BadV3ParamCount)
                } else {
                    Ok(PayloadDecodePlan::DecodeV3Triple)
                }
            } else {
                if len != 1 {
                    Err(NewPayloadSerializerError::BadParamCount)
                } else {
                    match shape.timestamp {
                        None => Err(NewPayloadSerializerError::NoTimestamp),
                        Some(None) => Err(NewPayloadSerializerError::BadTimestamp),
                        Some(Some(ts)) => match spec_timestamp_to_version(ts, cfg) {
                            None => Err(NewPayloadSerializerError::UnknownFork),
                            Some(fork) => Ok(PayloadDecodePlan::DecodeSingle(fork)),
                        },
                    }
                }
            }
        },
    }
}

/// Types a `newPayload` request: `engine_newPayloadV3` params are the
/// three-element Cancun form; `engine_newPayloadV1|V2` params hold a single
/// payload whose variant follows from its timestamp's fork (a Cancun
/// timestamp through this path is tolerated).
pub fn newpayload_serializer(
    method: &EngineMethod,
    shape: &RawParamsShape,
    fork_config: &ForkConfig,
) -> (r: Result<PayloadDecodePlan, NewPayloadSerializerError>)
    ensures
        r == spec_newpayload_plan(*method, *shape, *fork_config),
{
    let len = match shape.array_len {
        None => {
            return Err(NewPayloadSerializerError::ParamsNotArray);
        },
        Some(len) => len,
    };
    if let EngineMethod::NewPayloadV3 = method {
        if len != 3 {
            return Err(NewPayloadSerializerError::BadV3ParamCount);
        }
        return Ok(PayloadDecodePlan::DecodeV3Triple);
    }
    if len != 1 {
        return Err(NewPayloadSerializerError::BadParamCount);
    }
    let ts = match shape.timestamp {
        None => {
            return Err(NewPayloadSerializerError::NoTimestamp);
        },
        Some(None) => {
            return Err(NewPayloadSerializerError::BadTimestamp);
        },
        Some(Some(ts)) => ts,
    };
    match timestamp_to_version(&ts, fork_config) {
        None => Err(NewPayloadSerializerError::UnknownFork),
        Some(fork) => Ok(PayloadDecodePlan::DecodeSingle(fork)),
    }
}

} // verus!
