use bridge::derive::{
    claim_key, custody_key, derive_key, guardian_set_key, proposal_key, signature_record_key, wrapped_asset_key,
};
use bridge::error::BridgeError;
use bridge::executor::{check_vaa_accounts, ClaimRecord, Effect, Execution, VaaAccounts};
use bridge::fees::InstructionView;
use bridge::guardian::GuardianSet;
use bridge::secp::{check_signature_accounts, collect_signer_refs, parse_secp_instruction};
use bridge::signatures::{has_quorum, ingest, quorum_threshold, SignatureRecord, SignerEntry};
use bridge::state::{Bridge, BridgeConfig};
use bridge::transfer::{
    check_proposal_account, lock_and_propose, LedgerAction, MintCreation, TransferOutPayload, TransferOutProposal, WrappedAssetMeta,
    CHAIN_ID_SOLANA, MAX_VAA_SIZE,
};
use bridge::vaa::{parse_vaa, AssetMeta, BodyTransfer, VaaBody};
use sha3::Digest;

const A: [u8; 20] = [0xaa; 20];
const B: [u8; 20] = [0xbb; 20];
const C: [u8; 20] = [0xcc; 20];
const GRACE: u32 = 100;

fn keccak(data: &[u8]) -> [u8; 32] {
    sha3::Keccak256::digest(data).into()
}

fn config() -> BridgeConfig {
    BridgeConfig {
        guardian_set_expiration_time: GRACE,
        min_bridge_balance: 1000,
        vaa_tx_fee: 50,
        token_program: [6; 32],
        program_id: [7; 32],
        bridge_key: [8; 32],
    }
}

fn bridge() -> Bridge {
    Bridge { guardian_set_index: 0, config: config() }
}

fn set0() -> GuardianSet {
    GuardianSet::new(0, vec![A, B, C], 10).unwrap()
}

fn vaa_bytes(gs_index: u32, timestamp: u32, action: u8, payload: &[u8]) -> Vec<u8> {
    let mut v = vec![1u8];
    v.extend_from_slice(&gs_index.to_be_bytes());
    v.push(0);
    v.extend_from_slice(&timestamp.to_be_bytes());
    v.push(action);
    v.extend_from_slice(payload);
    v
}

fn upgrade_vaa(gs_index: u32, timestamp: u32, chain: u8) -> Vec<u8> {
    let mut p = vec![chain];
    p.extend_from_slice(&[9u8; 32]);
    vaa_bytes(gs_index, timestamp, 0x02, &p)
}

fn transfer_payload(t: &BodyTransfer) -> Vec<u8> {
    let mut p = Vec::new();
    p.extend_from_slice(&t.nonce.to_be_bytes());
    p.push(t.source_chain);
    p.push(t.target_chain);
    p.extend_from_slice(&t.source_address);
    p.extend_from_slice(&t.target_address);
    p.push(t.asset.chain);
    p.extend_from_slice(&t.asset.address);
    p.push(t.asset.decimals);
    p.extend_from_slice(&t.amount);
    p
}

fn amount(v: u64) -> [u8; 32] {
    let mut a = [0u8; 32];
    a[24..].copy_from_slice(&v.to_be_bytes());
    a
}

fn entry(slot: usize, address: [u8; 20]) -> SignerEntry {
    SignerEntry { slot, address, signature: [slot as u8 + 1; 65] }
}

/// Signature record for `body` signed by every key of `set`.
fn full_record(set: &GuardianSet, body: &[u8]) -> Option<SignatureRecord> {
    let mut rec = None;
    let batch: Vec<SignerEntry> = set.keys.iter().enumerate().map(|(i, k)| entry(i, *k)).collect();
    ingest(&mut rec, set, keccak(body), body, &batch).unwrap();
    rec
}

struct Records {
    bridge: Bridge,
    set: Option<GuardianSet>,
    claim: ClaimRecord,
    new_set: Option<GuardianSet>,
    proposal: Option<TransferOutProposal>,
}

fn records() -> Records {
    Records {
        bridge: bridge(),
        set: Some(set0()),
        claim: ClaimRecord { claimed: false, claimed_at: 0 },
        new_set: None,
        proposal: None,
    }
}

fn run(rs: &mut Records, bytes: &[u8], now: u32, rec: &Option<SignatureRecord>) -> Result<Execution, BridgeError> {
    let vaa = parse_vaa(bytes).unwrap();
    Bridge::process_vaa(
        &mut rs.bridge,
        vaa,
        bytes,
        now,
        &mut rs.set,
        rec,
        [3; 32],
        &mut rs.claim,
        &mut rs.new_set,
        &mut rs.proposal,
        [0; 32],
        [0; 32],
    )
}

#[test]
fn rotate_requires_next_index() {
    let mut b = bridge();
    let mut old = set0();
    let mut existing = None;
    assert_eq!(Bridge::process_vaa_set_update(&mut b, &mut old, &mut existing, 2, vec![A], 50), Err(BridgeError::StaleRotation));
    assert_eq!(Bridge::process_vaa_set_update(&mut b, &mut old, &mut existing, 0, vec![A], 50), Err(BridgeError::StaleRotation));
    assert_eq!(old.expires_at, 0);
    assert!(existing.is_none());
    assert_eq!(b.guardian_set_index, 0);
}

#[test]
fn rotate_twice_already_exists() {
    let mut b = bridge();
    let mut old = set0();
    let mut existing = None;
    assert_eq!(Bridge::process_vaa_set_update(&mut b, &mut old, &mut existing, 1, vec![B, C], 50), Ok(()));
    assert_eq!(old.expires_at, 50 + GRACE);
    assert_eq!(b.guardian_set_index, 1);
    let new = existing.clone().unwrap();
    assert_eq!((new.index, new.keys.clone(), new.created_at, new.expires_at), (1, vec![B, C], 50, 0));
    assert_eq!(Bridge::process_vaa_set_update(&mut b, &mut old, &mut existing, 1, vec![B, C], 60), Err(BridgeError::AlreadyExists));
    assert_eq!(old.expires_at, 50 + GRACE);
}

#[test]
fn rotate_key_count_bounds() {
    let mut b = bridge();
    let mut old = set0();
    let mut existing = None;
    assert_eq!(Bridge::process_vaa_set_update(&mut b, &mut old, &mut existing, 1, vec![], 50), Err(BridgeError::EmptyOrOversizedKeySet));
    assert_eq!(Bridge::process_vaa_set_update(&mut b, &mut old, &mut existing, 1, vec![A; 20], 50), Err(BridgeError::EmptyOrOversizedKeySet));
    assert_eq!(Bridge::process_vaa_set_update(&mut b, &mut old, &mut existing, 1, vec![A; 19], 50), Ok(()));
    assert_eq!(GuardianSet::new(0, vec![], 1), Err(BridgeError::EmptyOrOversizedKeySet));
}

#[test]
fn rotate_expiry_saturates() {
    let mut b = bridge();
    let mut old = set0();
    let mut existing = None;
    assert_eq!(Bridge::process_vaa_set_update(&mut b, &mut old, &mut existing, 1, vec![A], u32::MAX - 10), Ok(()));
    assert_eq!(old.expires_at, u32::MAX);
}

#[test]
fn validity_window() {
    let mut s = set0();
    assert!(s.is_valid_at(u32::MAX));
    s.expires_at = 20;
    assert!(s.is_valid_at(19));
    assert!(!s.is_valid_at(20));
}

#[test]
fn quorum_boundary_seven_keys() {
    assert_eq!(quorum_threshold(7), 5);
    assert!(!has_quorum(4, 7));
    assert!(has_quorum(5, 7));
}

#[test]
fn quorum_boundary_small_sets() {
    assert_eq!(quorum_threshold(1), 1);
    assert!(has_quorum(1, 1));
    assert!(!has_quorum(0, 1));
    assert_eq!(quorum_threshold(3), 3);
    assert!(!has_quorum(2, 3));
    assert!(has_quorum(3, 3));
    assert_eq!(quorum_threshold(19), 13);
    assert!(!has_quorum(12, 19));
    assert_eq!(quorum_threshold(0), 1);
}

#[test]
fn ingest_three_then_execute_once() {
    let set = set0();
    let bytes = upgrade_vaa(0, 77, CHAIN_ID_SOLANA);
    let vaa = parse_vaa(&bytes).unwrap();
    let hash = keccak(&vaa.body);
    let mut rec = None;
    ingest(&mut rec, &set, hash, &vaa.body, &vec![entry(0, A)]).unwrap();
    ingest(&mut rec, &set, hash, &vaa.body, &vec![entry(1, B)]).unwrap();
    ingest(&mut rec, &set, hash, &vaa.body, &vec![entry(2, C)]).unwrap();
    assert_eq!(rec.as_ref().unwrap().quorum_count(), 3);
    let mut rs = records();
    let first = run(&mut rs, &bytes, 100, &rec);
    assert_eq!(first, Ok(Execution { effect: Effect::Upgrade { buffer: [9; 32] }, evict_signatures: false }));
    assert_eq!(rs.claim, ClaimRecord { claimed: true, claimed_at: 100 });
    assert_eq!(run(&mut rs, &bytes, 101, &rec), Err(BridgeError::AlreadyClaimed));
    assert_eq!(rs.claim, ClaimRecord { claimed: true, claimed_at: 100 });
}

#[test]
fn claimed_message_fails_whatever_payload() {
    let set = set0();
    for bytes in [upgrade_vaa(0, 5, CHAIN_ID_SOLANA), upgrade_vaa(0, 5, 2)] {
        let rec = full_record(&set, &parse_vaa(&bytes).unwrap().body);
        let mut rs = records();
        rs.claim = ClaimRecord { claimed: true, claimed_at: 3 };
        assert_eq!(run(&mut rs, &bytes, 10, &rec), Err(BridgeError::AlreadyClaimed));
    }
}

#[test]
fn quorum_not_reached_with_two_of_three() {
    let set = set0();
    let bytes = upgrade_vaa(0, 77, CHAIN_ID_SOLANA);
    let vaa = parse_vaa(&bytes).unwrap();
    let mut rec = None;
    ingest(&mut rec, &set, keccak(&vaa.body), &vaa.body, &vec![entry(0, A), entry(2, C)]).unwrap();
    let mut rs = records();
    assert_eq!(run(&mut rs, &bytes, 100, &rec), Err(BridgeError::QuorumNotReached));
    assert!(!rs.claim.claimed);
}

#[test]
fn execute_admission_errors() {
    let set = set0();
    let bytes = upgrade_vaa(0, 77, CHAIN_ID_SOLANA);
    let body = parse_vaa(&bytes).unwrap().body;
    let rec = full_record(&set, &body);
    let mut rs = records();
    rs.set = None;
    assert_eq!(run(&mut rs, &bytes, 1, &rec), Err(BridgeError::UnknownGuardianSet));
    let mut rs = records();
    assert_eq!(run(&mut rs, &upgrade_vaa(1, 77, CHAIN_ID_SOLANA), 1, &rec), Err(BridgeError::UnknownGuardianSet));
    let mut rs = records();
    assert_eq!(run(&mut rs, &bytes, 1, &None), Err(BridgeError::NoSignatures));
    let other = full_record(&set, &parse_vaa(&upgrade_vaa(0, 78, CHAIN_ID_SOLANA)).unwrap().body);
    assert_eq!(run(&mut rs, &bytes, 1, &other), Err(BridgeError::HashMismatch));
    let mut wrong_set = rec.clone();
    wrong_set.as_mut().unwrap().guardian_set_index = 4;
    assert_eq!(run(&mut rs, &bytes, 1, &wrong_set), Err(BridgeError::GuardianSetMismatch));
    assert_eq!(run(&mut rs, &upgrade_vaa(0, 5, 2), 1, &full_record(&set, &parse_vaa(&upgrade_vaa(0, 5, 2)).unwrap().body)), Err(BridgeError::WrongChain));
    assert!(!rs.claim.claimed);
}

#[test]
fn old_set_valid_during_grace_period() {
    let t: u32 = 1000;
    let new_keys: Vec<u8> = {
        let mut p = 1u32.to_be_bytes().to_vec();
        p.push(2);
        p.extend_from_slice(&B);
        p.extend_from_slice(&C);
        p
    };
    let rotation = vaa_bytes(0, 900, 0x01, &new_keys);
    let set = set0();
    let rec = full_record(&set, &parse_vaa(&rotation).unwrap().body);
    let mut rs = records();
    assert_eq!(
        run(&mut rs, &rotation, t, &rec),
        Ok(Execution { effect: Effect::GuardianSetRotated, evict_signatures: true })
    );
    assert_eq!(rs.bridge.guardian_set_index, 1);
    assert_eq!(rs.set.as_ref().unwrap().expires_at, t + GRACE);
    assert_eq!(rs.new_set.as_ref().unwrap().keys, vec![B, C]);
    let old_set = rs.set.clone();
    for (now, expect_ok) in [(t, true), (t + GRACE - 1, true), (t + GRACE, false)] {
        let bytes = upgrade_vaa(0, now, CHAIN_ID_SOLANA);
        let rec = full_record(&set, &parse_vaa(&bytes).unwrap().body);
        let mut rs = records();
        rs.set = old_set.clone();
        let r = run(&mut rs, &bytes, now, &rec);
        if expect_ok {
            assert!(r.is_ok());
        } else {
            assert_eq!(r, Err(BridgeError::GuardianSetExpired));
        }
    }
}

#[test]
fn ingest_checks() {
    let set = set0();
    let msg = b"hello".to_vec();
    let hash = keccak(&msg);
    let mut rec = None;
    assert_eq!(ingest(&mut rec, &set, [0; 32], &msg, &vec![entry(0, A)]), Err(BridgeError::HashMismatch));
    assert_eq!(ingest(&mut rec, &set, hash, &msg, &vec![entry(3, A)]), Err(BridgeError::SlotOutOfRange));
    assert_eq!(ingest(&mut rec, &set, hash, &msg, &vec![entry(0, A), entry(1, C)]), Err(BridgeError::KeyMismatch));
    assert!(rec.is_none());
    ingest(&mut rec, &set, hash, &msg, &vec![entry(1, B)]).unwrap();
    let r = rec.as_ref().unwrap();
    assert_eq!((r.guardian_set_index, r.message_hash, r.signatures.len()), (0, hash, 64));
    assert_eq!(r.signatures[1], Some([2; 65]));
    assert_eq!(r.quorum_count(), 1);
    let other = GuardianSet::new(5, vec![A, B, C], 0).unwrap();
    assert_eq!(ingest(&mut rec, &other, hash, &msg, &vec![entry(0, A)]), Err(BridgeError::GuardianSetMismatch));
    let msg2 = b"other".to_vec();
    assert_eq!(ingest(&mut rec, &set, keccak(&msg2), &msg2, &vec![entry(0, A)]), Err(BridgeError::HashMismatch));
    let again = SignerEntry { slot: 1, address: B, signature: [7; 65] };
    ingest(&mut rec, &set, hash, &msg, &vec![again]).unwrap();
    assert_eq!(rec.as_ref().unwrap().signatures[1], Some([7; 65]));
    assert_eq!(rec.as_ref().unwrap().quorum_count(), 1);
}

/// Secp instruction data at index 0 holding the given (address, signature)
/// pairs, all over `msg`.
fn secp_data(sigs: &[([u8; 20], [u8; 65])], msg: &[u8]) -> Vec<u8> {
    let n = sigs.len();
    let table = 1 + 11 * n;
    let msg_offset = table + 85 * n;
    let mut d = vec![n as u8];
    for i in 0..n {
        let addr = (table + 85 * i) as u16;
        let sig = addr + 20;
        d.extend_from_slice(&sig.to_le_bytes());
        d.push(0);
        d.extend_from_slice(&addr.to_le_bytes());
        d.push(0);
        d.extend_from_slice(&(msg_offset as u16).to_le_bytes());
        d.extend_from_slice(&(msg.len() as u16).to_le_bytes());
        d.push(0);
    }
    for (a, s) in sigs {
        d.extend_from_slice(a);
        d.extend_from_slice(s);
    }
    d.extend_from_slice(msg);
    d
}

#[test]
fn secp_instruction_parses() {
    let msg = b"body bytes".to_vec();
    let d = secp_data(&[(A, [1; 65]), (C, [3; 65])], &msg);
    let parsed = parse_secp_instruction(&d, 0).unwrap();
    assert_eq!(parsed.len(), 2);
    assert_eq!(parsed[1].address, C);
    assert_eq!(parsed[1].signature, [3; 65]);
    assert_eq!(parsed[0].msg_size as usize, msg.len());
    assert_eq!(parse_secp_instruction(&d, 1), Err(BridgeError::InvalidSignatureInstruction));
    assert_eq!(parse_secp_instruction(&d[..5], 0), Err(BridgeError::InvalidSignatureInstruction));
    assert_eq!(parse_secp_instruction(&[1], 0), Err(BridgeError::InvalidSignatureInstruction));
}

#[test]
fn signer_refs_skip_absent() {
    let refs = collect_signer_refs(&[-1, 1, -1, 0]);
    assert_eq!(refs.len(), 2);
    assert_eq!((refs[0].slot, refs[0].sig_index), (1, 1));
    assert_eq!((refs[1].slot, refs[1].sig_index), (3, 0));
}

#[test]
fn verify_signatures_records_slots() {
    let set = set0();
    let msg = b"attested body".to_vec();
    let d = secp_data(&[(A, [1; 65]), (C, [3; 65])], &msg);
    let mut rec = None;
    assert_eq!(Bridge::process_verify_signatures(&mut rec, &set, keccak(&msg), &d, 0, &[0, -1, 1]), Ok(()));
    let r = rec.as_ref().unwrap();
    assert_eq!(r.signatures[0], Some([1; 65]));
    assert_eq!(r.signatures[1], None);
    assert_eq!(r.signatures[2], Some([3; 65]));
    assert_eq!(r.quorum_count(), 2);
    let mut fresh = None;
    assert_eq!(Bridge::process_verify_signatures(&mut fresh, &set, keccak(&msg), &d, 0, &[1, -1, 0]), Err(BridgeError::KeyMismatch));
    assert_eq!(Bridge::process_verify_signatures(&mut fresh, &set, keccak(&msg), &d, 0, &[0, -1, -1]), Err(BridgeError::InvalidSignatureInstruction));
    assert_eq!(Bridge::process_verify_signatures(&mut fresh, &set, [0; 32], &d, 0, &[0, -1, 1]), Err(BridgeError::HashMismatch));
    assert!(fresh.is_none());
}

#[test]
fn vaa_parse_transfer() {
    let t = BodyTransfer {
        nonce: 0x01020304,
        source_chain: 2,
        target_chain: 1,
        source_address: [4; 32],
        target_address: [5; 32],
        asset: AssetMeta { chain: 2, address: [6; 32], decimals: 8 },
        amount: amount(500),
    };
    let bytes = vaa_bytes(0x0a0b0c0d, 0x11223344, 0x10, &transfer_payload(&t));
    let v = parse_vaa(&bytes).unwrap();
    assert_eq!(v.guardian_set_index, 0x0a0b0c0d);
    assert_eq!(v.timestamp, 0x11223344);
    assert_eq!(v.body, bytes[6..].to_vec());
    assert_eq!(v.payload, VaaBody::Transfer(t));
}

#[test]
fn vaa_parse_rejects_malformed() {
    let good = upgrade_vaa(0, 1, 1);
    assert!(parse_vaa(&good).is_ok());
    let mut bad_version = good.clone();
    bad_version[0] = 2;
    assert_eq!(parse_vaa(&bad_version), Err(BridgeError::InvalidVaaFormat));
    assert_eq!(parse_vaa(&good[..good.len() - 1]), Err(BridgeError::InvalidVaaFormat));
    assert_eq!(parse_vaa(&vaa_bytes(0, 1, 0x07, &[0; 33])), Err(BridgeError::InvalidVaaFormat));
    assert_eq!(parse_vaa(&[1, 0, 0]), Err(BridgeError::InvalidVaaFormat));
    let rotation = vaa_bytes(0, 1, 0x01, &[0, 0, 0, 1, 1, 0xaa]);
    assert_eq!(parse_vaa(&rotation), Err(BridgeError::InvalidVaaFormat));
}

fn native_payload(nonce: u32, value: u64) -> TransferOutPayload {
    TransferOutPayload {
        amount: amount(value),
        target_chain: 2,
        asset: AssetMeta { chain: CHAIN_ID_SOLANA, address: [0; 32], decimals: 0 },
        target_address: [5; 32],
        nonce,
    }
}

const MINT: [u8; 32] = [0x4d; 32];
const SENDER: [u8; 32] = [0x53; 32];

#[test]
fn lock_twice_is_duplicate() {
    let cfg = config();
    let t = native_payload(1, 250);
    let mut existing = None;
    let first = lock_and_propose(&cfg, &mut existing, &t, SENDER, MINT, MINT, 6, cfg.bridge_key, 42).unwrap();
    let custody = custody_key(&cfg.program_id, &cfg.bridge_key, &MINT).unwrap();
    assert_eq!(first, LedgerAction::TransferToCustody { source: SENDER, custody, amount: 250 });
    let p = existing.clone().unwrap();
    assert_eq!((p.locked_at, p.poke_count, p.asset.address, p.asset.decimals), (42, 0, MINT, 6));
    assert!(p.attachment.is_none());
    assert_eq!(lock_and_propose(&cfg, &mut existing, &t, SENDER, MINT, MINT, 6, cfg.bridge_key, 43), Err(BridgeError::DuplicateProposal));
    assert_eq!(existing.unwrap().locked_at, 42);
}

#[test]
fn lock_errors() {
    let cfg = config();
    let mut existing = None;
    assert_eq!(lock_and_propose(&cfg, &mut existing, &native_payload(1, 5), SENDER, [1; 32], MINT, 6, cfg.bridge_key, 1), Err(BridgeError::TokenMintMismatch));
    let mut big = native_payload(1, 0);
    big.amount[0] = 1;
    assert_eq!(lock_and_propose(&cfg, &mut existing, &big, SENDER, MINT, MINT, 6, cfg.bridge_key, 1), Err(BridgeError::AmountOverflow));
    let mut wrapped = native_payload(1, 5);
    wrapped.asset = AssetMeta { chain: 3, address: [2; 32], decimals: 8 };
    assert_eq!(lock_and_propose(&cfg, &mut existing, &wrapped, SENDER, MINT, MINT, 6, cfg.bridge_key, 1), Err(BridgeError::InvalidDerivedAccount));
    assert!(existing.is_none());
    let mint = wrapped_asset_key(&cfg.program_id, &cfg.bridge_key, 3, 8, &[2; 32]).unwrap();
    let burn = lock_and_propose(&cfg, &mut existing, &wrapped, SENDER, mint, mint, 8, cfg.bridge_key, 1).unwrap();
    assert_eq!(burn, LedgerAction::Burn { account: SENDER, mint, amount: 5 });
    assert_eq!(existing.unwrap().asset, AssetMeta { chain: 3, address: [2; 32], decimals: 8 });
}

fn locked() -> (TransferOutProposal, BodyTransfer) {
    let cfg = config();
    let mut existing = None;
    lock_and_propose(&cfg, &mut existing, &native_payload(9, 1000), SENDER, MINT, MINT, 6, cfg.bridge_key, 1).unwrap();
    let body = BodyTransfer {
        nonce: 9,
        source_chain: CHAIN_ID_SOLANA,
        target_chain: 2,
        source_address: SENDER,
        target_address: [5; 32],
        asset: AssetMeta { chain: CHAIN_ID_SOLANA, address: MINT, decimals: 6 },
        amount: amount(1000),
    };
    (existing.unwrap(), body)
}

/// A VAA with `signatures` empty signature entries that attests `t`.
fn transfer_vaa(t: &BodyTransfer, signatures: u8) -> Vec<u8> {
    let mut v = vec![1u8, 0, 0, 0, 0, signatures];
    for i in 0..signatures {
        v.push(i);
        v.extend_from_slice(&[0u8; 65]);
    }
    v.extend_from_slice(&7u32.to_be_bytes());
    v.push(0x10);
    v.extend_from_slice(&transfer_payload(t));
    v
}

#[test]
fn attach_mismatch_by_one_unit() {
    let (mut p, body) = locked();
    let mut more = body;
    more.amount = amount(1001);
    assert_eq!(Bridge::process_vaa_transfer_post(&mut p, &more, &transfer_vaa(&more, 0), 7, [3; 32]), Err(BridgeError::AttachMismatch));
    let mut other_asset = body;
    other_asset.asset.decimals = 7;
    assert_eq!(Bridge::process_vaa_transfer_post(&mut p, &other_asset, &transfer_vaa(&other_asset, 0), 7, [3; 32]), Err(BridgeError::AttachMismatch));
    let mut other_target = body;
    other_target.target_address[31] = 6;
    assert_eq!(Bridge::process_vaa_transfer_post(&mut p, &other_target, &transfer_vaa(&other_target, 0), 7, [3; 32]), Err(BridgeError::AttachMismatch));
    assert!(p.attachment.is_none());
}

#[test]
fn attach_once() {
    let (mut p, body) = locked();
    let long = transfer_vaa(&body, 15);
    assert!(long.len() > MAX_VAA_SIZE);
    assert_eq!(Bridge::process_vaa_transfer_post(&mut p, &body, &long, 7, [3; 32]), Err(BridgeError::PayloadTooLarge));
    let bytes = transfer_vaa(&body, 1);
    assert_eq!(Bridge::process_vaa_transfer_post(&mut p, &body, &bytes, 7, [3; 32]), Ok(()));
    let a = p.attachment.clone().unwrap();
    assert_eq!((a.vaa, a.attached_at, a.signature_record), (bytes.clone(), 7, [3; 32]));
    assert_eq!(Bridge::process_vaa_transfer_post(&mut p, &body, &bytes, 8, [3; 32]), Err(BridgeError::AlreadyAttached));
    assert_eq!(Bridge::process_poke(&mut p), Err(BridgeError::AlreadyAttached));
}

#[test]
fn poke_counts_until_attached() {
    let (mut p, _) = locked();
    assert_eq!(Bridge::process_poke(&mut p), Ok(()));
    assert_eq!(Bridge::process_poke(&mut p), Ok(()));
    assert_eq!(p.poke_count, 2);
    p.poke_count = u32::MAX;
    assert_eq!(Bridge::process_poke(&mut p), Ok(()));
    assert_eq!(p.poke_count, u32::MAX);
}

#[test]
fn execute_posts_outbound_vaa() {
    let (p, body) = locked();
    let bytes = vaa_bytes(0, 321, 0x10, &transfer_payload(&body));
    let rec = full_record(&set0(), &parse_vaa(&bytes).unwrap().body);
    let mut rs = records();
    assert_eq!(run(&mut rs, &bytes, 400, &rec), Err(BridgeError::UnknownProposal));
    rs.proposal = Some(p);
    assert_eq!(run(&mut rs, &bytes, 400, &rec), Ok(Execution { effect: Effect::TransferPosted, evict_signatures: true }));
    let a = rs.proposal.unwrap().attachment.unwrap();
    assert_eq!((a.vaa, a.attached_at, a.signature_record), (bytes.clone(), 321, [3; 32]));
}

#[test]
fn settle_inbound_native_and_wrapped() {
    let cfg = config();
    let mut b = BodyTransfer {
        nonce: 1,
        source_chain: 2,
        target_chain: 1,
        source_address: [4; 32],
        target_address: [5; 32],
        asset: AssetMeta { chain: CHAIN_ID_SOLANA, address: MINT, decimals: 6 },
        amount: amount(77),
    };
    let custody = custody_key(&cfg.program_id, &cfg.bridge_key, &MINT).unwrap();
    assert_eq!(Bridge::process_vaa_transfer(&cfg, &b, MINT, MINT), Ok(LedgerAction::ReleaseFromCustody { custody, destination: [5; 32], amount: 77 }));
    b.asset = AssetMeta { chain: 2, address: [6; 32], decimals: 8 };
    assert_eq!(Bridge::process_vaa_transfer(&cfg, &b, MINT, MINT), Err(BridgeError::InvalidDerivedAccount));
    let mint = wrapped_asset_key(&cfg.program_id, &cfg.bridge_key, 2, 8, &[6; 32]).unwrap();
    assert_eq!(Bridge::process_vaa_transfer(&cfg, &b, mint, [1; 32]), Err(BridgeError::TokenMintMismatch));
    assert_eq!(Bridge::process_vaa_transfer(&cfg, &b, mint, mint), Ok(LedgerAction::MintTo { mint, destination: [5; 32], amount: 77 }));
    b.amount = [0xff; 32];
    assert_eq!(Bridge::process_vaa_transfer(&cfg, &b, mint, mint), Err(BridgeError::AmountOverflow));
}

#[test]
fn derivation_is_deterministic_and_distinct() {
    let id = [7u8; 32];
    let seeds = vec![b"bridge".to_vec()];
    assert_eq!(derive_key(&id, &seeds), derive_key(&id, &seeds));
    let a = proposal_key(&id, &[8; 32], 1, &[1; 32], 2, &[2; 32], &[3; 32], 5).unwrap();
    assert_eq!(a, proposal_key(&id, &[8; 32], 1, &[1; 32], 2, &[2; 32], &[3; 32], 5).unwrap());
    let variants = [
        proposal_key(&id, &[8; 32], 2, &[1; 32], 2, &[2; 32], &[3; 32], 5).unwrap(),
        proposal_key(&id, &[8; 32], 1, &[0; 32], 2, &[2; 32], &[3; 32], 5).unwrap(),
        proposal_key(&id, &[8; 32], 1, &[1; 32], 3, &[2; 32], &[3; 32], 5).unwrap(),
        proposal_key(&id, &[8; 32], 1, &[1; 32], 2, &[0; 32], &[3; 32], 5).unwrap(),
        proposal_key(&id, &[8; 32], 1, &[1; 32], 2, &[2; 32], &[0; 32], 5).unwrap(),
        proposal_key(&id, &[8; 32], 1, &[1; 32], 2, &[2; 32], &[3; 32], 6).unwrap(),
    ];
    for v in variants {
        assert_ne!(v, a);
    }
    assert_ne!(claim_key(&id, &[8; 32], &[1; 32]).unwrap(), claim_key(&id, &[8; 32], &[2; 32]).unwrap());
    let too_long = vec![vec![0u8; 33]];
    assert_eq!(derive_key(&id, &too_long), Err(BridgeError::InvalidDerivedAccount));
}

fn fee_ix(amount: u64) -> InstructionView {
    let mut data = vec![2, 0, 0, 0];
    data.extend_from_slice(&amount.to_le_bytes());
    InstructionView { program_id: [0; 32], accounts: vec![[1; 32], [8; 32]], data }
}

#[test]
fn fee_transfer_checks() {
    let bridge_key = [8u8; 32];
    assert_eq!(Bridge::check_fees(1, &fee_ix(0x0102), &bridge_key, 0x0102), Ok(()));
    assert_eq!(Bridge::check_fees(1, &fee_ix(0x0101), &bridge_key, 0x0102), Err(BridgeError::InsufficientFees));
    assert_eq!(Bridge::check_fees(0, &fee_ix(500), &bridge_key, 100), Err(BridgeError::InvalidFeeTransfer));
    let mut wrong_program = fee_ix(500);
    wrong_program.program_id = [1; 32];
    assert_eq!(Bridge::check_fees(1, &wrong_program, &bridge_key, 100), Err(BridgeError::InvalidFeeTransfer));
    assert_eq!(Bridge::check_fees(1, &fee_ix(500), &[9; 32], 100), Err(BridgeError::InvalidFeeTransfer));
    let mut wrong_tag = fee_ix(500);
    wrong_tag.data[0] = 3;
    assert_eq!(Bridge::check_fees(1, &wrong_tag, &bridge_key, 100), Err(BridgeError::InvalidFeeTransfer));
    let mut short = fee_ix(500);
    short.data.pop();
    assert_eq!(Bridge::check_fees(1, &short, &bridge_key, 100), Err(BridgeError::InvalidFeeTransfer));
}

#[test]
fn lamport_moves() {
    assert_eq!(Bridge::transfer_sol(10, 5, 4), Ok((6, 9)));
    assert_eq!(Bridge::transfer_sol(3, 5, 4), Err(BridgeError::InsufficientFunds));
    assert_eq!(Bridge::transfer_sol(10, u64::MAX, 1), Err(BridgeError::AmountOverflow));
}

#[test]
fn subsidy_only_above_floor() {
    let b = bridge();
    assert!(b.subsidy_due(1050));
    assert!(!b.subsidy_due(1049));
    assert!(!b.subsidy_due(10));
}

#[test]
fn create_wrapped_checks_derivation() {
    let cfg = config();
    let asset = AssetMeta { chain: 2, address: [6; 32], decimals: 8 };
    let mut meta = None;
    assert_eq!(Bridge::process_create_wrapped(&cfg, &asset, MINT, &mut meta), Err(BridgeError::InvalidDerivedAccount));
    let mint = wrapped_asset_key(&cfg.program_id, &cfg.bridge_key, 2, 8, &[6; 32]).unwrap();
    assert_eq!(
        Bridge::process_create_wrapped(&cfg, &asset, mint, &mut meta),
        Ok(MintCreation { mint, decimals: 8, authority: cfg.bridge_key })
    );
    assert_eq!(meta, Some(WrappedAssetMeta { chain: 2, address: [6; 32] }));
    assert_eq!(Bridge::process_create_wrapped(&cfg, &asset, mint, &mut meta), Err(BridgeError::AlreadyExists));
}

#[test]
fn initialize_creates_first_set() {
    let (b, set) = Bridge::process_initialize(config(), vec![A, B], 12).unwrap();
    assert_eq!(b.guardian_set_index, 0);
    assert_eq!(b.config, config());
    assert_eq!((set.index, set.keys, set.created_at, set.expires_at), (0, vec![A, B], 12, 0));
    assert_eq!(Bridge::process_initialize(config(), vec![A; 20], 12), Err(BridgeError::EmptyOrOversizedKeySet));
}

#[test]
fn wrapped_and_native_paths() {
    let cfg = config();
    let t = native_payload(4, 10);
    let mut existing = None;
    assert_eq!(
        Bridge::process_transfer_out(&cfg, &mut existing, &t, SENDER, MINT, MINT, 6, 1),
        Err(BridgeError::InvalidDerivedAccount)
    );
    let mut foreign = t;
    foreign.asset = AssetMeta { chain: 5, address: [1; 32], decimals: 9 };
    let custody = custody_key(&cfg.program_id, &cfg.bridge_key, &MINT).unwrap();
    assert_eq!(
        Bridge::process_transfer_native_out(&cfg, &mut existing, &foreign, SENDER, MINT, MINT, 6, cfg.bridge_key, 1),
        Ok(LedgerAction::TransferToCustody { source: SENDER, custody, amount: 10 })
    );
    assert_eq!(existing.unwrap().asset, AssetMeta { chain: CHAIN_ID_SOLANA, address: MINT, decimals: 6 });
}

#[test]
fn execute_mints_inbound_wrapped_asset() {
    let cfg = config();
    let body = BodyTransfer {
        nonce: 3,
        source_chain: 2,
        target_chain: CHAIN_ID_SOLANA,
        source_address: [4; 32],
        target_address: [5; 32],
        asset: AssetMeta { chain: 2, address: [6; 32], decimals: 8 },
        amount: amount(12),
    };
    let bytes = vaa_bytes(0, 50, 0x10, &transfer_payload(&body));
    let vaa = parse_vaa(&bytes).unwrap();
    let rec = full_record(&set0(), &vaa.body);
    let mint = wrapped_asset_key(&cfg.program_id, &cfg.bridge_key, 2, 8, &[6; 32]).unwrap();
    let mut rs = records();
    let r = Bridge::process_vaa(
        &mut rs.bridge, vaa, &bytes, 60, &mut rs.set, &rec, [3; 32], &mut rs.claim, &mut rs.new_set,
        &mut rs.proposal, mint, mint,
    );
    assert_eq!(
        r,
        Ok(Execution {
            effect: Effect::Ledger(LedgerAction::MintTo { mint, destination: [5; 32], amount: 12 }),
            evict_signatures: false,
        })
    );
    assert_eq!(rs.claim, ClaimRecord { claimed: true, claimed_at: 60 });
    let again = parse_vaa(&bytes).unwrap();
    let r2 = Bridge::process_vaa(
        &mut rs.bridge, again, &bytes, 61, &mut rs.set, &rec, [3; 32], &mut rs.claim, &mut rs.new_set,
        &mut rs.proposal, mint, mint,
    );
    assert_eq!(r2, Err(BridgeError::AlreadyClaimed));
}

#[test]
fn native_lock_refuses_custody_as_sender() {
    let cfg = config();
    let t = native_payload(2, 10);
    let custody = custody_key(&cfg.program_id, &cfg.bridge_key, &MINT).unwrap();
    let mut existing = None;
    assert_eq!(
        lock_and_propose(&cfg, &mut existing, &t, custody, MINT, MINT, 6, cfg.bridge_key, 1),
        Err(BridgeError::WrongTokenAccountOwner)
    );
    assert_eq!(
        lock_and_propose(&cfg, &mut existing, &t, SENDER, MINT, MINT, 6, [1; 32], 1),
        Err(BridgeError::WrongTokenAccountOwner)
    );
    assert!(existing.is_none());
}

#[test]
fn native_settle_requires_asset_mint() {
    let cfg = config();
    let b = BodyTransfer {
        nonce: 1,
        source_chain: 2,
        target_chain: 1,
        source_address: [4; 32],
        target_address: [5; 32],
        asset: AssetMeta { chain: CHAIN_ID_SOLANA, address: MINT, decimals: 6 },
        amount: amount(77),
    };
    assert_eq!(Bridge::process_vaa_transfer(&cfg, &b, [1; 32], [1; 32]), Err(BridgeError::InvalidDerivedAccount));
    assert_eq!(Bridge::process_vaa_transfer(&cfg, &b, MINT, [1; 32]), Err(BridgeError::TokenMintMismatch));
}

#[test]
fn account_keys_are_checked() {
    let cfg = config();
    let bytes = upgrade_vaa(0, 9, CHAIN_ID_SOLANA);
    let vaa = parse_vaa(&bytes).unwrap();
    let h = keccak(&vaa.body);
    let good = VaaAccounts {
        guardian_set: guardian_set_key(&cfg.program_id, &cfg.bridge_key, 0).unwrap(),
        signatures: signature_record_key(&cfg.program_id, &cfg.bridge_key, &h, 0).unwrap(),
        claim: claim_key(&cfg.program_id, &cfg.bridge_key, &h).unwrap(),
    };
    assert_eq!(check_vaa_accounts(&cfg, &vaa, &good), Ok(()));
    let mut wrong_claim = good;
    wrong_claim.claim = claim_key(&cfg.program_id, &cfg.bridge_key, &[0; 32]).unwrap();
    assert_eq!(check_vaa_accounts(&cfg, &vaa, &wrong_claim), Err(BridgeError::InvalidDerivedAccount));
    let mut wrong_set = good;
    wrong_set.guardian_set = [1; 32];
    assert_eq!(check_vaa_accounts(&cfg, &vaa, &wrong_set), Err(BridgeError::InvalidDerivedAccount));
    assert_eq!(check_signature_accounts(&cfg, 0, &h, &good.guardian_set, &good.signatures), Ok(()));
    assert_eq!(check_signature_accounts(&cfg, 1, &h, &good.guardian_set, &good.signatures), Err(BridgeError::InvalidDerivedAccount));
    let (p, _) = locked();
    let key = proposal_key(&cfg.program_id, &cfg.bridge_key, p.asset.chain, &p.asset.address, 2, &[5; 32], &SENDER, 9).unwrap();
    assert_eq!(check_proposal_account(&cfg, &p.asset, 2, &[5; 32], &SENDER, 9, &key), Ok(()));
    assert_eq!(check_proposal_account(&cfg, &p.asset, 2, &[5; 32], &SENDER, 10, &key), Err(BridgeError::InvalidDerivedAccount));
}
