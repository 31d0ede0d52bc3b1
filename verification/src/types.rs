//! The data model: hashes, 256-bit scalars, execution payloads and the
//! payload-status values that the reducer counts.

use vstd::prelude::*;

verus! {

/// A 32-byte hash (block hash, state root, and the like).
#[derive(Clone, Copy, Debug)]
pub struct H256(pub [u8; 32]);

impl View for H256 {
    type V = Seq<u8>;

    open spec fn view(&self) -> Seq<u8> {
        self.0@
    }
}

impl H256 {
    /// Byte-wise equality.
    pub fn same(&self, other: &H256) -> (r: bool)
        ensures
            r == (self@ == other@),
    {
        let mut i: usize = 0;
        while i < 32
            invariant
                i <= 32,
                forall|j: int| 0 <= j < i ==> self.0@[j] == other.0@[j],
            decreases 32 - i,
        {
            if self.0[i] != other.0[i] {
                assert(self@ != other@);
                return false;
            }
            i += 1;
        }
        assert(self@ =~= other@);
        true
    }
}

/// An unsigned 256-bit integer, as four 64-bit limbs, least significant
/// first.
#[derive(Clone, Copy, Debug)]
pub struct U256(pub [u64; 4]);

impl U256 {
    /// The number this value denotes.
    pub open spec fn as_nat(self) -> nat {
        (self.0@[0] + self.0@[1] * 0x1_0000_0000_0000_0000
            + self.0@[2] * 0x1_0000_0000_0000_0000_0000_0000_0000_0000
            + self.0@[3]
                * 0x1_0000_0000_0000_0000_0000_0000_0000_0000_0000_0000_0000_0000) as nat
    }

    /// The value of a single 64-bit number.
    pub fn from_u64(x: u64) -> (r: U256)
        ensures
            r.as_nat() == x,
    {
        U256([x, 0, 0, 0])
    }

    /// Numeric strictly-less-than, decided limb by limb from the most
    /// significant end.
    pub fn lt(&self, other: &U256) -> (r: bool)
        ensures
            r == (self.as_nat() < other.as_nat()),
    {
        let mut i: usize = 4;
        while i > 0
            invariant
                i <= 4,
                forall|j: int| i <= j < 4 ==> self.0@[j] == other.0@[j],
            decreases i,
        {
            i -= 1;
            if self.0[i] < other.0[i] {
                proof {
                    lemma_limb_order(self.0@, other.0@, i as int);
                }
                return true;
            }
            if self.0[i] > other.0[i] {
                proof {
                    lemma_limb_order(other.0@, self.0@, i as int);
                }
                return false;
            }
        }
        assert(self.0@ =~= other.0@);
        false
    }
}

/// If two limb vectors agree above position `i` and differ in `a`'s favour at
/// `i`, then `a` denotes the smaller number.
proof fn lemma_limb_order(a: Seq<u64>, b: Seq<u64>, i: int)
    requires
        a.len() == 4,
        b.len() == 4,
        0 <= i < 4,
        a[i] < b[i],
        forall|j: int| i < j < 4 ==> a[j] == b[j],
    ensures
        (a[0] + a[1] * 0x1_0000_0000_0000_0000
            + a[2] * 0x1_0000_0000_0000_0000_0000_0000_0000_0000
            + a[3] * 0x1_0000_0000_0000_0000_0000_0000_0000_0000_0000_0000_0000_0000) < (b[0]
            + b[1] * 0x1_0000_0000_0000_0000
            + b[2] * 0x1_0000_0000_0000_0000_0000_0000_0000_0000
            + b[3] * 0x1_0000_0000_0000_0000_0000_0000_0000_0000_0000_0000_0000_0000),
{
    assert(a[0] <= 0xffff_ffff_ffff_ffffu64);
    assert(a[1] <= 0xffff_ffff_ffff_ffffu64);
    assert(a[2] <= 0xffff_ffff_ffff_ffffu64);
    assert(a[i] + 1 <= b[i]);
}

/// A withdrawal operation, as carried in Shanghai-and-later payloads.
#[derive(Clone, Debug)]
pub struct Withdrawal {
    pub index: u64,
    pub validator_index: u64,
    pub address: [u8; 20],
    pub amount: u64,
}

/// The execution fields shared by every payload version.
#[derive(Clone, Debug)]
pub struct ExecutionPayloadV1 {
    pub parent_hash: H256,
    pub fee_recipient: [u8; 20],
    pub state_root: H256,
    pub receipts_root: H256,
    pub logs_bloom: Vec<u8>,
    pub prev_randao: H256,
    pub block_number: u64,
    pub gas_limit: u64,
    pub gas_used: u64,
    pub timestamp: u64,
    pub extra_data: Vec<u8>,
    pub base_fee_per_gas: U256,
    pub block_hash: H256,
    pub transactions: Vec<Vec<u8>>,
}

/// A Shanghai payload: the shared fields plus withdrawals.
#[derive(Clone, Debug)]
pub struct ExecutionPayloadV2 {
    pub base: ExecutionPayloadV1,
    pub withdrawals: Vec<Withdrawal>,
}

/// A Cancun payload: the Shanghai fields plus blob-gas accounting.
#[derive(Clone, Debug)]
pub struct ExecutionPayloadV3 {
    pub base: ExecutionPayloadV2,
    pub blob_gas_used: u64,
    pub excess_blob_gas: u64,
}

/// An execution payload of any supported version.
#[derive(Clone, Debug)]
pub enum ExecutionPayload {
    V1(ExecutionPayloadV1),
    V2(ExecutionPayloadV2),
    V3(ExecutionPayloadV3),
}

impl ExecutionPayload {
    /// The shared execution fields, whatever the version.
    pub open spec fn spec_base(self) -> ExecutionPayloadV1 {
        match self {
            ExecutionPayload::V1(p) => p,
            ExecutionPayload::V2(p) => p.base,
            ExecutionPayload::V3(p) => p.base.base,
        }
    }

    /// The shared execution fields, whatever the version.
    pub fn base(&self) -> (b: &ExecutionPayloadV1)
        ensures
            *b == self.spec_base(),
    {
        match self {
            ExecutionPayload::V1(p) => p,
            ExecutionPayload::V2(p) => &p.base,
            ExecutionPayload::V3(p) => &p.base.base,
        }
    }
}

/// A typed `engine_newPayload` request: the payload plus the extra Cancun
/// parameters when present.
#[derive(Clone, Debug)]
pub struct NewPayloadRequest {
    pub execution_payload: ExecutionPayload,
    pub expected_blob_versioned_hashes: Option<Vec<H256>>,
    pub parent_beacon_block_root: Option<H256>,
}

/// The status field of a `PayloadStatusV1`.
#[derive(Clone, Copy, Debug, PartialEq, Eq, Structural)]
pub enum PayloadStatusV1Status {
    Valid,
    Invalid,
    Syncing,
    Accepted,
    InvalidBlockHash,
}

impl PayloadStatusV1Status {
    /// Whether this status declares the block invalid.
    pub open spec fn spec_is_invalid(self) -> bool {
        self == PayloadStatusV1Status::Invalid || self == PayloadStatusV1Status::InvalidBlockHash
    }

    /// Whether this status declares the block invalid.
    pub fn is_invalid(&self) -> (r: bool)
        ensures
            r == self.spec_is_invalid(),
    {
        match self {
            PayloadStatusV1Status::Invalid => true,
            PayloadStatusV1Status::InvalidBlockHash => true,
            _ => false,
        }
    }
}

/// The abstract value of a `PayloadStatusV1`: what two responses must share
/// for the reducer to count them as the same answer.
#[verifier::ext_equal]
pub struct PayloadStatusValue {
    pub status: PayloadStatusV1Status,
    pub latest_valid_hash: Option<Seq<u8>>,
    pub validation_error: Option<Seq<char>>,
}

/// One node's answer to `engine_newPayload` or the payload-status half of
/// `engine_forkchoiceUpdated`.
#[derive(Clone, Debug)]
pub struct PayloadStatusV1 {
    pub status: PayloadStatusV1Status,
    pub latest_valid_hash: Option<H256>,
    pub validation_error: Option<String>,
}

impl View for PayloadStatusV1 {
    type V = PayloadStatusValue;

    open spec fn view(&self) -> PayloadStatusValue {
        PayloadStatusValue {
            status: self.status,
            latest_valid_hash: match self.latest_valid_hash {
                Some(h) => Some(h@),
                None => None,
            },
            validation_error: match self.validation_error {
                Some(e) => Some(e@),
                None => None,
            },
        }
    }
}

impl PayloadStatusV1 {
    /// Equality over all three fields, so the reducer counts identical
    /// triples.
    pub fn same(&self, other: &PayloadStatusV1) -> (r: bool)
        ensures
            r == (self@ == other@),
    {
        let status_eq = self.status == other.status;
        let hash_eq = match (&self.latest_valid_hash, &other.latest_valid_hash) {
            (None, None) => true,
            (Some(a), Some(b)) => a.same(b),
            _ => false,
        };
        let err_eq = match (&self.validation_error, &other.validation_error) {
            (None, None) => true,
            (Some(a), Some(b)) => a.eq(b),
            _ => false,
        };
        if status_eq && hash_eq && err_eq {
            assert(self@ =~= other@);
            true
        } else {
            false
        }
    }

    /// A copy of the answer.
    pub fn duplicate(&self) -> (r: PayloadStatusV1)
        ensures
            r == *self,
            r@ == self@,
    {
        let r = PayloadStatusV1 {
            status: self.status,
            latest_valid_hash: match &self.latest_valid_hash {
                Some(h) => Some(*h),
                None => None,
            },
            validation_error: match &self.validation_error {
                Some(e) => Some(e.clone()),
                None => None,
            },
        };
        r
    }
}

/// The blobs bundle returned by `engine_getPayloadV3`.
#[derive(Clone, Debug)]
pub struct BlobsBundle {
    pub commitments: Vec<Vec<u8>>,
    pub proofs: Vec<Vec<u8>>,
    pub blobs: Vec<Vec<u8>>,
}

/// One node's answer to `engine_getPayloadV2`.
#[derive(Clone, Debug)]
pub struct GetPayloadResponseV2 {
    pub execution_payload: ExecutionPayloadV2,
    pub block_value: U256,
}

/// One node's answer to `engine_getPayloadV3`.
#[derive(Clone, Debug)]
pub struct GetPayloadResponseV3 {
    pub execution_payload: ExecutionPayloadV3,
    pub block_value: U256,
    pub blobs_bundle: BlobsBundle,
    pub should_override_builder: bool,
}

/// One node's answer to `engine_forkchoiceUpdated`.
#[derive(Clone, Debug)]
pub struct ForkchoiceUpdatedResponse {
    pub payload_status: PayloadStatusV1,
    pub payload_id: Option<String>,
}

} // verus!
