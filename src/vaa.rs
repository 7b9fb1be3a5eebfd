//! The VAA (Verified Action Approval) wire format and its decoded form.
//!
//! Layout, integers big-endian: version `u8`, guardian set index `u32`, signature
//! count `u8`, that many signatures of 66 bytes (slot `u8`, signature 65), then
//! the signed body: timestamp `u32`, action `u8`, and the action's payload.
use crate::bytes::{array_at, be_value, read_u32_be};
use crate::error::BridgeError;
use crate::guardian::GuardianKey;
use vstd::prelude::*;

verus! {

/// The only VAA version this bridge reads.
pub const VAA_VERSION: u8 = 1;

/// Bytes of one signature entry in a VAA.
pub const VAA_SIGNATURE_LEN: usize = 66;

/// Action byte of a guardian set rotation.
pub const ACTION_GUARDIAN_SET_UPDATE: u8 = 0x01;

/// Action byte of a contract upgrade.
pub const ACTION_CONTRACT_UPGRADE: u8 = 0x02;

/// Action byte of an asset transfer.
pub const ACTION_TRANSFER: u8 = 0x10;

/// Payload bytes of a transfer.
pub const TRANSFER_PAYLOAD_LEN: usize = 136;

/// Payload bytes of a contract upgrade.
pub const UPGRADE_PAYLOAD_LEN: usize = 33;

/// An asset, named by its home chain and its address there.
#[derive(Debug, Clone, Copy, PartialEq, Eq)]
pub struct AssetMeta {
    pub chain: u8,
    pub address: [u8; 32],
    pub decimals: u8,
}

/// An attested transfer between chains.
#[derive(Debug, Clone, Copy, PartialEq, Eq)]
pub struct BodyTransfer {
    pub nonce: u32,
    pub source_chain: u8,
    pub target_chain: u8,
    pub source_address: [u8; 32],
    pub target_address: [u8; 32],
    pub asset: AssetMeta,
    /// 256-bit amount, big-endian.
    pub amount: [u8; 32],
}

/// The attested action.
#[derive(Debug, Clone, PartialEq, Eq)]
pub enum VaaBody {
    UpdateGuardianSet { new_index: u32, new_keys: Vec<GuardianKey> },
    Transfer(BodyTransfer),
    UpgradeContract { chain_id: u8, buffer: [u8; 32] },
}

/// A decoded VAA.
#[derive(Debug, Clone, PartialEq, Eq)]
pub struct Vaa {
    pub version: u8,
    pub guardian_set_index: u32,
    pub timestamp: u32,
    /// The signed bytes: from the timestamp to the end.
    pub body: Vec<u8>,
    pub payload: VaaBody,
}

/// Big-endian 32-bit value at `p`.
pub open spec fn u32_at(b: Seq<u8>, p: int) -> int {
    be_value(b.subrange(p, p + 4)) as int
}

/// Where the signed body starts.
pub open spec fn body_start(b: Seq<u8>) -> int {
    6 + VAA_SIGNATURE_LEN * b[5]
}

/// Where the action's payload starts.
pub open spec fn payload_start(b: Seq<u8>) -> int {
    body_start(b) + 5
}

/// The action byte.
pub open spec fn action_of(b: Seq<u8>) -> u8 {
    b[body_start(b) + 4]
}

/// Whether the payload of the action has exactly the length its layout asks for.
pub open spec fn payload_ok(b: Seq<u8>) -> bool {
    let p = payload_start(b);
    let a = action_of(b);
    if a == ACTION_GUARDIAN_SET_UPDATE {
        p + 5 <= b.len() && b.len() == p + 5 + 20 * b[p + 4]
    } else if a == ACTION_TRANSFER {
        b.len() == p + TRANSFER_PAYLOAD_LEN
    } else if a == ACTION_CONTRACT_UPGRADE {
        b.len() == p + UPGRADE_PAYLOAD_LEN
    } else {
        false
    }
}

/// Whether `b` is a well-formed VAA.
pub open spec fn vaa_layout_ok(b: Seq<u8>) -> bool {
    &&& b.len() >= 6
    &&& b[0] == VAA_VERSION
    &&& payload_start(b) <= b.len()
    &&& payload_ok(b)
}

/// Whether `t` is the transfer whose payload starts at `p`.
pub open spec fn transfer_is(b: Seq<u8>, p: int, t: BodyTransfer) -> bool {
    &&& t.nonce == u32_at(b, p)
    &&& t.source_chain == b[p + 4]
    &&& t.target_chain == b[p + 5]
    &&& t.source_address@ == b.subrange(p + 6, p + 38)
    &&& t.target_address@ == b.subrange(p + 38, p + 70)
    &&& t.asset.chain == b[p + 70]
    &&& t.asset.address@ == b.subrange(p + 71, p + 103)
    &&& t.asset.decimals == b[p + 103]
    &&& t.amount@ == b.subrange(p + 104, p + 136)
}

/// Whether `body` is the action that the bytes `b` encode.
pub open spec fn payload_is(b: Seq<u8>, body: VaaBody) -> bool {
    let p = payload_start(b);
    let a = action_of(b);
    match body {
        VaaBody::UpdateGuardianSet { new_index, new_keys } => {
            &&& a == ACTION_GUARDIAN_SET_UPDATE
            &&& new_index == u32_at(b, p)
            &&& new_keys@.len() == b[p + 4]
            &&& forall|k: int|
                0 <= k < new_keys@.len() ==> (#[trigger] new_keys@[k])@ == b.subrange(
                    p + 5 + 20 * k,
                    p + 25 + 20 * k,
                )
        },
        VaaBody::Transfer(t) => a == ACTION_TRANSFER && transfer_is(b, p, t),
        VaaBody::UpgradeContract { chain_id, buffer } => {
            &&& a == ACTION_CONTRACT_UPGRADE
            &&& chain_id == b[p]
            &&& buffer@ == b.subrange(p + 1, p + 33)
        },
    }
}

/// Whether `v` is the decoding of the bytes `b`.
pub open spec fn vaa_is(b: Seq<u8>, v: Vaa) -> bool {
    &&& v.version == b[0]
    &&& v.guardian_set_index == u32_at(b, 1)
    &&& v.timestamp == u32_at(b, body_start(b))
    &&& v.body@ == b.subrange(body_start(b), b.len() as int)
    &&& payload_is(b, v.payload)
}

/// Whether `b` is a well-formed VAA that attests the transfer `t`.
pub open spec fn attests_transfer(b: Seq<u8>, t: BodyTransfer) -> bool {
    vaa_layout_ok(b) && payload_is(b, VaaBody::Transfer(t))
}

fn read_transfer(b: &[u8], p: usize) -> (r: BodyTransfer)
    requires
        p + TRANSFER_PAYLOAD_LEN <= b@.len(),
    ensures
        transfer_is(b@, p as int, r),
{
    let nonce = read_u32_be(&b[p..p + 4]);
    assert(b@.subrange(p as int, p + 4) == b@.subrange(p as int, p + 4).subrange(0, 4));
    BodyTransfer {
        nonce,
        source_chain: b[p + 4],
        target_chain: b[p + 5],
        source_address: array_at(b, p + 6),
        target_address: array_at(b, p + 38),
        asset: AssetMeta { chain: b[p + 70], address: array_at(b, p + 71), decimals: b[p + 103] },
        amount: array_at(b, p + 104),
    }
}

fn read_keys(b: &[u8], p: usize, n: u8) -> (r: Vec<GuardianKey>)
    requires
        p + 20 * (n as int) <= b@.len(),
    ensures
        r@.len() == n,
        forall|k: int|
            0 <= k < n ==> (#[trigger] r@[k])@ == b@.subrange(p + 20 * k, p + 20 * k + 20),
{
    let mut keys: Vec<GuardianKey> = Vec::new();
    let len = b.len();
    let mut k: u8 = 0;
    while k < n
        invariant
            len == b@.len(),
            p + 20 * (n as int) <= b@.len(),
            k <= n,
            keys@.len() == k,
            forall|j: int|
                0 <= j < k ==> (#[trigger] keys@[j])@ == b@.subrange(p + 20 * j, p + 20 * j + 20),
        decreases n - k,
    {
        let key: GuardianKey = array_at(b, p + 20 * (k as usize));
        keys.push(key);
        k = k + 1;
    }
    keys
}

/// Decodes a VAA, refusing bytes that do not follow the wire format.
pub fn parse_vaa(b: &[u8]) -> (r: Result<Vaa, BridgeError>)
    ensures
        r is Ok <==> vaa_layout_ok(b@),
        r matches Err(e) ==> e == BridgeError::InvalidVaaFormat,
        r matches Ok(v) ==> vaa_is(b@, v),
{
    let len = b.len();
    if len < 6 || b[0] != VAA_VERSION {
        return Err(BridgeError::InvalidVaaFormat);
    }
    let start: usize = 6 + VAA_SIGNATURE_LEN * (b[5] as usize);
    let p: usize = start + 5;
    if p > len {
        return Err(BridgeError::InvalidVaaFormat);
    }
    let guardian_set_index = read_u32_be(&b[1..5]);
    let timestamp = read_u32_be(&b[start..start + 4]);
    assert(b@.subrange(1, 5) == b@.subrange(1, 5).subrange(0, 4));
    assert(b@.subrange(start as int, start + 4) == b@.subrange(start as int, start + 4).subrange(
        0,
        4,
    ));
    let action = b[start + 4];
    let payload = if action == ACTION_GUARDIAN_SET_UPDATE {
        if p + 5 > len || len != p + 5 + 20 * (b[p + 4] as usize) {
            return Err(BridgeError::InvalidVaaFormat);
        }
        let new_index = read_u32_be(&b[p..p + 4]);
        assert(b@.subrange(p as int, p + 4) == b@.subrange(p as int, p + 4).subrange(0, 4));
        let new_keys = read_keys(b, p + 5, b[p + 4]);
        VaaBody::UpdateGuardianSet { new_index, new_keys }
    } else if action == ACTION_TRANSFER {
        if len != p + TRANSFER_PAYLOAD_LEN {
            return Err(BridgeError::InvalidVaaFormat);
        }
        VaaBody::Transfer(read_transfer(b, p))
    } else if action == ACTION_CONTRACT_UPGRADE {
        if len != p + UPGRADE_PAYLOAD_LEN {
            return Err(BridgeError::InvalidVaaFormat);
        }
        VaaBody::UpgradeContract { chain_id: b[p], buffer: array_at(b, p + 1) }
    } else {
        return Err(BridgeError::InvalidVaaFormat);
    };
    let mut body: Vec<u8> = Vec::new();
    crate::bytes::extend_bytes(&mut body, &b[start..len]);
    Ok(Vaa { version: b[0], guardian_set_index, timestamp, body, payload })
}

} // verus!
