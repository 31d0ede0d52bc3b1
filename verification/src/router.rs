//! The engine router's dispatch matrix and response shaping.
//!
//! Each engine method maps to a fan-out strategy. The surrounding I/O layer
//! performs the fan-out the strategy asks for and hands the collected
//! responses to the matching route function here, which reduces them and
//! shapes the single response owed to the consensus client.

use crate::reducer::{fcu_logic, spec_fcu_logic};
use crate::types::{
    ExecutionPayload, ForkchoiceUpdatedResponse, GetPayloadResponseV2, GetPayloadResponseV3, H256,
    PayloadStatusV1,
};
use crate::verify_hash::{
    spec_block_hash, spec_hashable, verify_payload_block_hash, BlockHashMismatch,
};
use vstd::prelude::*;
use vstd::string::StringExecFns;

verus! {

/// The Engine API methods the router distinguishes, plus a bucket for the
/// rest of the `engine_` namespace.
#[derive(Clone, Copy, Debug, PartialEq, Eq, Structural)]
pub enum EngineMethod {
    NewPayloadV1,
    NewPayloadV2,
    NewPayloadV3,
    ForkchoiceUpdatedV1,
    ForkchoiceUpdatedV2,
    ForkchoiceUpdatedV3,
    GetPayloadV1,
    GetPayloadV2,
    GetPayloadV3,
    GetClientVersionV1,
    OtherEngine,
}

/// How a method is sent across the pool, and what is collected.
#[derive(Clone, Copy, Debug, PartialEq, Eq, Structural)]
pub enum FanoutStrategy {
    /// Ask only the primary node, with no timeout; a transport failure of the
    /// connect / timeout / request class demotes it.
    PrimaryOnly,
    /// Broadcast to all alive nodes and collect payload statuses.
    BroadcastStatuses,
    /// Broadcast to all alive nodes and collect forkchoice responses.
    BroadcastFcu,
    /// Broadcast and collect `engine_getPayloadV2` responses.
    BroadcastPayloadsV2,
    /// Broadcast and collect `engine_getPayloadV3` responses.
    BroadcastPayloadsV3,
    /// Broadcast and collect every raw result verbatim.
    BroadcastRaw,
    /// Ask the primary and replay the request to the other alive nodes.
    PrimaryAndReplicate,
}

/// The strategy each method calls for.
pub open spec fn spec_dispatch_strategy(method: EngineMethod) -> FanoutStrategy {
    match method {
        EngineMethod::GetPayloadV1 => FanoutStrategy::PrimaryOnly,
        EngineMethod::GetPayloadV2 => FanoutStrategy::BroadcastPayloadsV2,
        EngineMethod::GetPayloadV3 => FanoutStrategy::BroadcastPayloadsV3,
        EngineMethod::NewPayloadV1 => FanoutStrategy::BroadcastStatuses,
        EngineMethod::NewPayloadV2 => FanoutStrategy::BroadcastStatuses,
        EngineMethod::NewPayloadV3 => FanoutStrategy::BroadcastStatuses,
        EngineMethod::ForkchoiceUpdatedV1 => FanoutStrategy::BroadcastFcu,
        EngineMethod::ForkchoiceUpdatedV2 => FanoutStrategy::BroadcastFcu,
        EngineMethod::ForkchoiceUpdatedV3 => FanoutStrategy::BroadcastFcu,
        EngineMethod::GetClientVersionV1 => FanoutStrategy::BroadcastRaw,
        EngineMethod::OtherEngine => FanoutStrategy::PrimaryAndReplicate,
    }
}

/// The dispatch matrix: which strategy serves each engine method.
pub fn dispatch_strategy(method: &EngineMethod) -> (s: FanoutStrategy)
    ensures
        s == spec_dispatch_strategy(*method),
{
    match method {
        EngineMethod::GetPayloadV1 => FanoutStrategy::PrimaryOnly,
        EngineMethod::GetPayloadV2 => FanoutStrategy::BroadcastPayloadsV2,
        EngineMethod::GetPayloadV3 => FanoutStrategy::BroadcastPayloadsV3,
        EngineMethod::NewPayloadV1 => FanoutStrategy::BroadcastStatuses,
        EngineMethod::NewPayloadV2 => FanoutStrategy::BroadcastStatuses,
        EngineMethod::NewPayloadV3 => FanoutStrategy::BroadcastStatuses,
        EngineMethod::ForkchoiceUpdatedV1 => FanoutStrategy::BroadcastFcu,
        EngineMethod::ForkchoiceUpdatedV2 => FanoutStrategy::BroadcastFcu,
        EngineMethod::ForkchoiceUpdatedV3 => FanoutStrategy::BroadcastFcu,
        EngineMethod::GetClientVersionV1 => FanoutStrategy::BroadcastRaw,
        EngineMethod::OtherEngine => FanoutStrategy::PrimaryAndReplicate,
    }
}

/// The failure classes of an outgoing request the router distinguishes.
#[derive(Clone, Copy, Debug, PartialEq, Eq, Structural)]
pub enum TransportErrorClass {
    Connect,
    Timeout,
    RequestBuild,
    Other,
}

/// Whether a transport failure of this class demotes the primary node to
/// syncing (only the connect / timeout / request classes do).
pub open spec fn spec_should_demote(class: TransportErrorClass) -> bool {
    match class {
        TransportErrorClass::Connect => true,
        TransportErrorClass::Timeout => true,
        TransportErrorClass::RequestBuild => true,
        TransportErrorClass::Other => false,
    }
}

/// The single response owed to the consensus client, before serialization.
#[derive(Debug)]
pub enum EngineResponse {
    /// A body passed through verbatim from the primary node.
    Raw { body: String },
    /// A JSON-RPC error body (code -32700) with the given message.
    Error { id: u64, message: String },
    /// A reduced `engine_newPayload` result.
    Status { id: u64, status: PayloadStatusV1 },
    /// A reduced `engine_forkchoiceUpdated` result with the preserved
    /// payload id.
    Fcu { id: u64, status: PayloadStatusV1, payload_id: Option<String> },
    /// The most profitable `engine_getPayloadV2` response.
    PayloadV2 { id: u64, response: GetPayloadResponseV2 },
    /// The most profitable `engine_getPayloadV3` response.
    PayloadV3 { id: u64, response: GetPayloadResponseV3 },
    /// The verbatim results of every node, as an array.
    ClientVersions { id: u64, results: Vec<String> },
    /// The fabricated `engine_newPayload` SYNCING result.
    SyncingNewPayload { id: u64 },
    /// The fabricated `engine_forkchoiceUpdated` SYNCING envelope with a null
    /// payload id.
    SyncingFcu { id: u64 },
    /// The supplied payload failed block-hash verification, so its
    /// invalidity is reported instead of a false SYNCING.
    HashMismatch { mismatch: BlockHashMismatch },
    /// The supplied payload could not even be decoded; its decode error is
    /// reported verbatim.
    Undecodable { message: String },
}

/// A routing decision: the response, the HTTP status to send it with, and
/// the side effects the caller still owes (backfilling syncing nodes,
/// demoting the primary).
#[derive(Debug)]
pub struct Routed {
    pub response: EngineResponse,
    pub http_status: u16,
    pub backfill: bool,
    pub demote_primary: bool,
}

/// The payload a `newPayload` request carried, as far as it could be
/// decoded: needed to fabricate a safe SYNCING answer.
#[derive(Debug)]
pub enum PayloadForSyncing {
    /// The decoded payload.
    Decoded(ExecutionPayload),
    /// The payload did not decode; the decode error text.
    Undecodable(String),
}

impl PayloadForSyncing {
    /// Whether the decoded payload, if any, is fit for hashing.
    pub open spec fn spec_verifiable(self) -> bool {
        self matches PayloadForSyncing::Decoded(p) ==> spec_hashable(p)
    }
}

/// The answer owed when a primary-only method finds no node to route to.
pub fn route_no_node(id: u64) -> (r: Routed)
    ensures
        r.response matches EngineResponse::Error { id: rid, message } && rid == id && message@
            == "No nodes available"@,
        r.http_status == 500,
        !r.backfill,
        !r.demote_primary,
{
    Routed {
        response: EngineResponse::Error { id, message: String::from_str("No nodes available") },
        http_status: 500,
        backfill: false,
        demote_primary: false,
    }
}

/// Routes the primary node's answer for `engine_getPayloadV1`: the body is
/// passed through; a transport failure becomes a JSON-RPC error with
/// HTTP 200 and demotes the node when its class warrants it.
pub fn route_get_payload_v1(id: u64, fetch: Result<(String, u16), (TransportErrorClass, String)>)
    -> (r: Routed)
    ensures
        ({
            match fetch {
                Ok((body, status)) => {
                    &&& r.response matches EngineResponse::Raw { body: b } && b@ == body@
                    &&& r.http_status == status
                    &&& !r.demote_primary
                },
                Err((class, message)) => {
                    &&& r.response matches EngineResponse::Error { id: rid, message: m } && rid
                        == id && m@ == message@
                    &&& r.http_status == 200
                    &&& r.demote_primary == spec_should_demote(class)
                },
            }
        }),
        !r.backfill,
{
    match fetch {
        Ok((body, status)) => Routed {
            response: EngineResponse::Raw { body },
            http_status: status,
            backfill: false,
            demote_primary: false,
        },
        Err((class, message)) => {
            let demote = match class {
                TransportErrorClass::Connect => true,
                TransportErrorClass::Timeout => true,
                TransportErrorClass::RequestBuild => true,
                TransportErrorClass::Other => false,
            };
            Routed {
                response: EngineResponse::Error { id, message },
                http_status: 200,
                backfill: false,
                demote_primary: demote,
            }
        },
    }
}

/// Routes the primary node's answer for an engine method outside the
/// dispatch matrix: the body is passed through; a transport failure becomes
/// a JSON-RPC error with HTTP 200 and never demotes.
pub fn route_other_engine(id: u64, fetch: Result<(String, u16), String>) -> (r: Routed)
    ensures
        ({
            match fetch {
                Ok((body, status)) => {
                    &&& r.response matches EngineResponse::Raw { body: b } && b@ == body@
                    &&& r.http_status == status
                },
                Err(message) => {
                    &&& r.response matches EngineResponse::Error { id: rid, message: m } && rid
                        == id && m@ == message@
                    &&& r.http_status == 200
                },
            }
        }),
        !r.backfill,
        !r.demote_primary,
{
    match fetch {
        Ok((body, status)) => Routed {
            response: EngineResponse::Raw { body },
            http_status: status,
            backfill: false,
            demote_primary: false,
        },
        Err(message) => Routed {
            response: EngineResponse::Error { id, message },
            http_status: 200,
            backfill: false,
            demote_primary: false,
        },
    }
}

/// Routes a broadcast `engine_newPayload`: reduces the collected statuses;
/// on a majority the modal status is returned and syncing nodes are owed a
/// backfill; on any reducer error a SYNCING answer is fabricated, but only
/// after the supplied payload's block hash has been re-verified.
pub fn route_new_payload(
    id: u64,
    resps: &Vec<PayloadStatusV1>,
    majority_milli: u64,
    payload: &PayloadForSyncing,
    parent_beacon_block_root: &Option<H256>,
) -> (r: Routed)
    requires
        majority_milli <= 1000,
        payload.spec_verifiable(),
    ensures
        r.http_status == 200,
        !r.demote_primary,
        ({
            let d = spec_fcu_logic(resps@, majority_milli);
            match d {
                Ok(v) => {
                    &&& r.response matches EngineResponse::Status { id: rid, status } && rid == id
                        && status@ == v
                    &&& r.backfill
                },
                Err(_) => {
                    &&& !r.backfill
                    &&& match *payload {
                        PayloadForSyncing::Undecodable(msg) => r.response
                            matches EngineResponse::Undecodable { message } && message@ == msg@,
                        PayloadForSyncing::Decoded(p) => {
                            if p.spec_base().block_hash@ == spec_block_hash(
                                p,
                                *parent_beacon_block_root,
                            ) {
                                r.response matches EngineResponse::SyncingNewPayload {
                                    id: rid,
                                } && rid == id
                            } else {
                                r.response matches EngineResponse::HashMismatch { mismatch }
                                    && mismatch.expected@ == p.spec_base().block_hash@
                                    && mismatch.computed@ == spec_block_hash(
                                    p,
                                    *parent_beacon_block_root,
                                )
                            }
                        },
                    }
                },
            }
        }),
{
    match fcu_logic(resps, majority_milli) {
        Ok(status) => Routed {
            response: EngineResponse::Status { id, status },
            http_status: 200,
            backfill: true,
            demote_primary: false,
        },
        Err(_) => {
            let response = match payload {
                PayloadForSyncing::Undecodable(msg) => EngineResponse::Undecodable {
                    message: msg.clone(),
                },
                PayloadForSyncing::Decoded(p) => match verify_payload_block_hash(
                    p,
                    parent_beacon_block_root,
                ) {
                    Ok(_) => EngineResponse::SyncingNewPayload { id },
                    Err(mismatch) => EngineResponse::HashMismatch { mismatch },
                },
            };
            Routed { response, http_status: 200, backfill: false, demote_primary: false }
        },
    }
}

/// The payload id preserved from a forkchoice broadcast: the first non-null
/// one, in response order.
pub open spec fn spec_first_payload_id(rs: Seq<ForkchoiceUpdatedResponse>) -> Option<Seq<char>>
    decreases rs.len(),
{
    if rs.len() == 0 {
        None
    } else if rs[0].payload_id is Some {
        Some(rs[0].payload_id.unwrap()@)
    } else {
        spec_first_payload_id(rs.skip(1))
    }
}

/// The payload statuses carried by a forkchoice broadcast.
pub open spec fn spec_fcu_statuses(rs: Seq<ForkchoiceUpdatedResponse>) -> Seq<PayloadStatusV1> {
    rs.map_values(|r: ForkchoiceUpdatedResponse| r.payload_status)
}

/// Routes a broadcast `engine_forkchoiceUpdated`: splits the responses into
/// statuses and the preserved payload id, reduces the statuses, and
/// repackages the result; on any reducer error the SYNCING envelope with a
/// null payload id is fabricated.
pub fn route_fcu(id: u64, resps: &Vec<ForkchoiceUpdatedResponse>, majority_milli: u64) -> (r:
    Routed)
    requires
        majority_milli <= 1000,
    ensures
        r.http_status == 200,
        !r.demote_primary,
        ({
            let d = spec_fcu_logic(spec_fcu_statuses(resps@), majority_milli);
            match d {
                Ok(v) => {
                    &&& r.response matches EngineResponse::Fcu { id: rid, status, payload_id }
                        && rid == id && status@ == v && (match (
                        payload_id,
                        spec_first_payload_id(resps@),
                    ) {
                        (Some(p), Some(q)) => p@ == q,
                        (None, None) => true,
                        _ => false,
                    })
                    &&& r.backfill
                },
                Err(_) => {
                    &&& r.response matches EngineResponse::SyncingFcu { id: rid } && rid == id
                    &&& !r.backfill
                },
            }
        }),
{
    let mut statuses: Vec<PayloadStatusV1> = Vec::new();
    let mut payload_id: Option<String> = None;
    assert(resps@.skip(0) =~= resps@);
    let mut k: usize = 0;
    while k < resps.len()
        invariant
            k <= resps@.len(),
            statuses@.len() == k,
            forall|t: int| 0 <= t < k ==> statuses@[t] == resps@[t].payload_status,
            ({
                match payload_id {
                    Some(p) => spec_first_payload_id(resps@) matches Some(q) && p@ == q,
                    None => spec_first_payload_id(resps@) == spec_first_payload_id(
                        resps@.skip(k as int),
                    ),
                }
            }),
        decreases resps@.len() - k,
    {
        proof {
            assert(resps@.skip(k as int)[0] == resps@[k as int]);
            assert(resps@.skip(k as int).skip(1) =~= resps@.skip(k as int + 1));
        }
        statuses.push(resps[k].payload_status.duplicate());
        if payload_id.is_none() {
            if let Some(pid) = &resps[k].payload_id {
                payload_id = Some(pid.clone());
            }
        }
        k += 1;
    }
    proof {
        assert(statuses@ =~= spec_fcu_statuses(resps@));
        if payload_id is None {
            assert(resps@.skip(resps@.len() as int) =~= Seq::<ForkchoiceUpdatedResponse>::empty());
        }
    }
    match fcu_logic(&statuses, majority_milli) {
        Ok(status) => Routed {
            response: EngineResponse::Fcu { id, status, payload_id },
            http_status: 200,
            backfill: true,
            demote_primary: false,
        },
        Err(_) => Routed {
            response: EngineResponse::SyncingFcu { id },
            http_status: 200,
            backfill: false,
            demote_primary: false,
        },
    }
}

/// `s[m]` is the most profitable response: none is worth more, and every
/// later one is worth strictly less (on ties the last maximum wins).
pub open spec fn spec_most_profitable_v2_at(s: Seq<GetPayloadResponseV2>, m: int) -> bool {
    &&& 0 <= m < s.len()
    &&& forall|i: int|
        0 <= i < s.len() ==> s[i].block_value.as_nat() <= s[m].block_value.as_nat()
    &&& forall|i: int| m < i < s.len() ==> s[i].block_value.as_nat() < s[m].block_value.as_nat()
}

/// `s[m]` is the most profitable response: none is worth more, and every
/// later one is worth strictly less (on ties the last maximum wins).
pub open spec fn spec_most_profitable_v3_at(s: Seq<GetPayloadResponseV3>, m: int) -> bool {
    &&& 0 <= m < s.len()
    &&& forall|i: int|
        0 <= i < s.len() ==> s[i].block_value.as_nat() <= s[m].block_value.as_nat()
    &&& forall|i: int| m < i < s.len() ==> s[i].block_value.as_nat() < s[m].block_value.as_nat()
}

/// Routes a broadcast `engine_getPayloadV2`: of all collected responses the
/// one with the highest block value is returned; with none, an error body
/// with HTTP 200.
pub fn route_get_payload_v2(id: u64, resps: Vec<GetPayloadResponseV2>) -> (r: Routed)
    ensures
        r.http_status == 200,
        !r.backfill,
        !r.demote_primary,
        resps@.len() == 0 ==> (r.response matches EngineResponse::Error { id: rid, message }
            && rid == id && message@ == "No blocks found in EL engine_getPayloadV2 responses"@),
        resps@.len() > 0 ==> (r.response matches EngineResponse::PayloadV2 { id: rid, response }
            && rid == id && (exists|m: int|
            spec_most_profitable_v2_at(resps@, m) && response == resps@[m]) && (forall|i: int|
            0 <= i < resps@.len() ==> resps@[i].block_value.as_nat()
                <= response.block_value.as_nat())),
{
    let mut v = resps;
    if v.len() == 0 {
        return Routed {
            response: EngineResponse::Error {
                id,
                message: String::from_str("No blocks found in EL engine_getPayloadV2 responses"),
            },
            http_status: 200,
            backfill: false,
            demote_primary: false,
        };
    }
    let mut best: usize = 0;
    let mut i: usize = 1;
    while i < v.len()
        invariant
            1 <= i <= v@.len(),
            0 <= best < i,
            forall|j: int|
                0 <= j < i ==> v@[j].block_value.as_nat() <= v@[best as int].block_value.as_nat(),
            forall|j: int|
                best < j < i ==> v@[j].block_value.as_nat() < v@[
                    best as int
                ].block_value.as_nat(),
        decreases v@.len() - i,
    {
        if !v[i].block_value.lt(&v[best].block_value) {
            best = i;
        }
        i += 1;
    }
    assert(spec_most_profitable_v2_at(v@, best as int));
    let response = v.swap_remove(best);
    Routed {
        response: EngineResponse::PayloadV2 { id, response },
        http_status: 200,
        backfill: false,
        demote_primary: false,
    }
}

/// Routes a broadcast `engine_getPayloadV3` the same way; the
/// empty-response error body reuses the V2 wording.
pub fn route_get_payload_v3(id: u64, resps: Vec<GetPayloadResponseV3>) -> (r: Routed)
    ensures
        r.http_status == 200,
        !r.backfill,
        !r.demote_primary,
        resps@.len() == 0 ==> (r.response matches EngineResponse::Error { id: rid, message }
            && rid == id && message@ == "No blocks found in EL engine_getPayloadV2 responses"@),
        resps@.len() > 0 ==> (r.response matches EngineResponse::PayloadV3 { id: rid, response }
            && rid == id && (exists|m: int|
            spec_most_profitable_v3_at(resps@, m) && response == resps@[m]) && (forall|i: int|
            0 <= i < resps@.len() ==> resps@[i].block_value.as_nat()
                <= response.block_value.as_nat())),
{
    let mut v = resps;
    if v.len() == 0 {
        return Routed {
            response: EngineResponse::Error {
                id,
                message: String::from_str("No blocks found in EL engine_getPayloadV2 responses"),
            },
            http_status: 200,
            backfill: false,
            demote_primary: false,
        };
    }
    let mut best: usize = 0;
    let mut i: usize = 1;
    while i < v.len()
        invariant
            1 <= i <= v@.len(),
            0 <= best < i,
            forall|j: int|
                0 <= j < i ==> v@[j].block_value.as_nat() <= v@[best as int].block_value.as_nat(),
            forall|j: int|
                best < j < i ==> v@[j].block_value.as_nat() < v@[
                    best as int
                ].block_value.as_nat(),
        decreases v@.len() - i,
    {
        if !v[i].block_value.lt(&v[best].block_value) {
            best = i;
        }
        i += 1;
    }
    assert(spec_most_profitable_v3_at(v@, best as int));
    let response = v.swap_remove(best);
    Routed {
        response: EngineResponse::PayloadV3 { id, response },
        http_status: 200,
        backfill: false,
        demote_primary: false,
    }
}

/// Routes a non-engine request: the primary's answer is passed through.
/// `parse` carries the request id, or the text of the error that kept the
/// body from parsing; `fetch` is `None` when no node was available.
pub fn do_route_normal(parse: Result<u64, String>, fetch: Option<Result<(String, u16), String>>)
    -> (r: Routed)
    ensures
        !r.backfill,
        !r.demote_primary,
        ({
            match fetch {
                None => match parse {
                    Ok(pid) => r.response matches EngineResponse::Error { id, message } && id
                        == pid && message@ == "No nodes available"@ && r.http_status == 500,
                    Err(e) => r.response matches EngineResponse::Error { id, message } && id == 0
                        && message@ == e@ && r.http_status == 200,
                },
                Some(Ok((body, status))) => r.response matches EngineResponse::Raw { body: b }
                    && b@ == body@ && r.http_status == status,
                Some(Err(e)) => r.response matches EngineResponse::Error { id, message } && id
                    == 1 && message@ == e@ && r.http_status == 200,
            }
        }),
{
    match fetch {
        None => match parse {
            Ok(pid) => Routed {
                response: EngineResponse::Error {
                    id: pid,
                    message: String::from_str("No nodes available"),
                },
                http_status: 500,
                backfill: false,
                demote_primary: false,
            },
            Err(e) => Routed {
                response: EngineResponse::Error { id: 0, message: e },
                http_status: 200,
                backfill: false,
                demote_primary: false,
            },
        },
        Some(Ok((body, status))) => Routed {
            response: EngineResponse::Raw { body },
            http_status: status,
            backfill: false,
            demote_primary: false,
        },
        Some(Err(e)) => Routed {
            response: EngineResponse::Error { id: 1, message: e },
            http_status: 200,
            backfill: false,
            demote_primary: false,
        },
    }
}

/// What the HTTP surface does with one inbound POST.
#[derive(Clone, Copy, Debug, PartialEq, Eq, Structural)]
pub enum InboundPlan {
    /// The body is not JSON: reject with HTTP 400.
    BadBody,
    /// The body has no method field: reject with HTTP 400.
    NoMethodField,
    /// An engine request that does not deserialize: reject with HTTP 400.
    BadEngineRequest,
    /// An engine request without a bearer: reject with HTTP 400.
    NoAuthHeader,
    /// The Authorization header is not a string: reject with HTTP 400.
    UnreadableAuth,
    /// Route to the engine router, passing the bearer through.
    Engine,
    /// Forward to the primary with the caller's bearer.
    NormalWithBearer,
    /// Forward to the primary, minting a bearer from its own secret.
    NormalMintJwt,
}

/// The surface's routing decision for one inbound request.
pub open spec fn spec_classify_inbound(
    parses: bool,
    has_method: bool,
    is_engine: bool,
    engine_decodes: bool,
    has_auth: bool,
    auth_readable: bool,
) -> InboundPlan {
    if !parses {
        InboundPlan::BadBody
    } else if !has_method {
        InboundPlan::NoMethodField
    } else if is_engine {
        if !engine_decodes {
            InboundPlan::BadEngineRequest
        } else if !has_auth {
            InboundPlan::NoAuthHeader
        } else if !auth_readable {
            InboundPlan::UnreadableAuth
        } else {
            InboundPlan::Engine
        }
    } else {
        if !has_auth {
            InboundPlan::NormalMintJwt
        } else if !auth_readable {
            InboundPlan::UnreadableAuth
        } else {
            InboundPlan::NormalWithBearer
        }
    }
}

/// Decides what the HTTP surface does with one inbound POST: engine methods
/// need a readable bearer and a well-formed request; non-engine methods go
/// to the primary, with a freshly minted bearer when the caller sent none.
pub fn classify_inbound(
    parses: bool,
    has_method: bool,
    is_engine: bool,
    engine_decodes: bool,
    has_auth: bool,
    auth_readable: bool,
) -> (p: InboundPlan)
    ensures
        p == spec_classify_inbound(
            parses,
            has_method,
            is_engine,
            engine_decodes,
            has_auth,
            auth_readable,
        ),
{
    if !parses {
        InboundPlan::BadBody
    } else if !has_method {
        InboundPlan::NoMethodField
    } else if is_engine {
        if !engine_decodes {
            InboundPlan::BadEngineRequest
        } else if !has_auth {
            InboundPlan::NoAuthHeader
        } else if !auth_readable {
            InboundPlan::UnreadableAuth
        } else {
            InboundPlan::Engine
        }
    } else {
        if !has_auth {
            InboundPlan::NormalMintJwt
        } else if !auth_readable {
            InboundPlan::UnreadableAuth
        } else {
            InboundPlan::NormalWithBearer
        }
    }
}

/// Routes a broadcast `engine_getClientVersionV1`: the array of all raw
/// results is returned verbatim.
pub fn route_client_version(id: u64, results: Vec<String>) -> (r: Routed)
    ensures
        r.response matches EngineResponse::ClientVersions { id: rid, results: rs } && rid == id
            && rs@ == results@,
        r.http_status == 200,
        !r.backfill,
        !r.demote_primary,
{
    Routed {
        response: EngineResponse::ClientVersions { id, results },
        http_status: 200,
        backfill: false,
        demote_primary: false,
    }
}

} // verus!
