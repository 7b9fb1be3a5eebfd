//! Execution of attested actions: admission against the guardian set and the
//! signature record, dispatch on the action, and the claim that blocks replay.
use crate::bytes::{bytes_equal, keccak256, keccak256_of};
use crate::derive::{claim_key, claim_seeds, expect_key, guardian_set_key, guardian_set_seeds, is_derived, signature_record_key, signature_seeds};
use crate::error::BridgeError;
use crate::guardian::{rotation_error, successor, superseded, GuardianSet};
use crate::signatures::{filled_count, quorum_reached, SignatureRecord};
use crate::state::{Bridge, BridgeConfig};
use crate::transfer::{
    attach_error, attached_as, settle_action_is, settle_error,
    LedgerAction, TransferOutProposal, CHAIN_ID_SOLANA,
};
use crate::vaa::{vaa_is, vaa_layout_ok, Vaa, VaaBody};
use vstd::prelude::*;

verus! {

/// Replay protection for one attested message; once claimed it stays claimed.
#[derive(Debug, Clone, Copy, PartialEq, Eq)]
pub struct ClaimRecord {
    pub claimed: bool,
    pub claimed_at: u32,
}

/// What an execution did, for the host to complete.
#[derive(Debug, Clone, Copy, PartialEq, Eq)]
pub enum Effect {
    /// A new guardian set is active.
    GuardianSetRotated,
    /// The VAA was posted on its outbound proposal.
    TransferPosted,
    /// The ledger must perform this credit.
    Ledger(LedgerAction),
    /// The program must be upgraded from this buffer.
    Upgrade { buffer: [u8; 32] },
}

/// The outcome of a successful execution.
#[derive(Debug, Clone, Copy, PartialEq, Eq)]
pub struct Execution {
    pub effect: Effect,
    /// Whether the message's signature record is no longer needed.
    pub evict_signatures: bool,
}

/// Why the guardians' attestation of `vaa` is not accepted at `now`, if it is not.
pub open spec fn consensus_error(
    vaa: Vaa,
    now: u32,
    set: Option<GuardianSet>,
    record: Option<SignatureRecord>,
) -> Option<BridgeError> {
    if set is None || set->0.index != vaa.guardian_set_index {
        Some(BridgeError::UnknownGuardianSet)
    } else if !set->0.spec_is_valid_at(now) {
        Some(BridgeError::GuardianSetExpired)
    } else if record is None {
        Some(BridgeError::NoSignatures)
    } else if record->0.guardian_set_index != set->0.index {
        Some(BridgeError::GuardianSetMismatch)
    } else if record->0.message_hash@ != keccak256_of(vaa.body@) {
        Some(BridgeError::HashMismatch)
    } else if !quorum_reached(filled_count(record->0.signatures@) as int, set->0.keys@.len() as int) {
        Some(BridgeError::QuorumNotReached)
    } else {
        None
    }
}

/// Why `vaa` may not be dispatched, if it may not: the attestation is refused,
/// or the message was already executed.
pub open spec fn admission_error(
    vaa: Vaa,
    now: u32,
    set: Option<GuardianSet>,
    record: Option<SignatureRecord>,
    claim: ClaimRecord,
) -> Option<BridgeError> {
    match consensus_error(vaa, now, set, record) {
        Some(e) => Some(e),
        None => if claim.claimed {
            Some(BridgeError::AlreadyClaimed)
        } else {
            None
        },
    }
}

/// A claimed message is never executed again: whatever its payload, admission
/// fails, and once the guardians' attestation is otherwise accepted it fails
/// because the message is already claimed.
pub proof fn lemma_claim_blocks_replay(
    vaa: Vaa,
    now: u32,
    set: Option<GuardianSet>,
    record: Option<SignatureRecord>,
    claim: ClaimRecord,
)
    requires
        claim.claimed,
    ensures
        admission_error(vaa, now, set, record, claim) is Some,
        consensus_error(vaa, now, set, record) is None ==> admission_error(vaa, now, set, record, claim)
            == Some(BridgeError::AlreadyClaimed),
{
}

impl Bridge {
    /// Executes the attested action `vaa` (encoded as `vaa_bytes`) at time `now`.
    ///
    /// The records are those at the keys derived for this VAA: `set` at its guardian
    /// set index, `record` at its body digest, `claim` at its claim key. A rotation
    /// writes `new_set`, the record at the new index; posting an outbound transfer
    /// writes `proposal`; an inbound transfer is settled in `mint`, into a token
    /// account of `destination_mint`. `vaa_bytes` are the bytes `vaa` was decoded
    /// from. On any error no record changes.
    pub fn process_vaa(
        bridge: &mut Bridge,
        vaa: Vaa,
        vaa_bytes: &[u8],
        now: u32,
        set: &mut Option<GuardianSet>,
        record: &Option<SignatureRecord>,
        record_key: [u8; 32],
        claim: &mut ClaimRecord,
        new_set: &mut Option<GuardianSet>,
        proposal: &mut Option<TransferOutProposal>,
        mint: [u8; 32],
        destination_mint: [u8; 32],
    ) -> (r: Result<Execution, BridgeError>)
        requires
            vaa_layout_ok(vaa_bytes@),
            vaa_is(vaa_bytes@, vaa),
            *old(set) matches Some(s) ==> s.wf(),
            *record matches Some(rec) ==> rec.wf(),
        ensures
            admission_error(vaa, now, *old(set), *record, *old(claim)) matches Some(e) ==> r == Err::<
                Execution,
                BridgeError,
            >(e),
            r is Err ==> {
                &&& *final(bridge) == *old(bridge)
                &&& *final(set) == *old(set)
                &&& *final(claim) == *old(claim)
                &&& *final(new_set) == *old(new_set)
                &&& *final(proposal) == *old(proposal)
            },
            r is Ok ==> {
                &&& admission_error(vaa, now, *old(set), *record, *old(claim)) is None
                &&& *final(claim) == (ClaimRecord { claimed: true, claimed_at: now })
            },
            admission_error(vaa, now, *old(set), *record, *old(claim)) is None ==> match vaa.payload {
                VaaBody::UpdateGuardianSet { new_index, new_keys } => {
                    &&& rotation_error((*old(set))->0, *old(new_set), new_index, new_keys@.len()) matches Some(e)
                        ==> r == Err::<Execution, BridgeError>(e)
                    &&& rotation_error((*old(set))->0, *old(new_set), new_index, new_keys@.len()) is None ==> {
                        &&& r == Ok::<Execution, BridgeError>(
                            Execution { effect: Effect::GuardianSetRotated, evict_signatures: true },
                        )
                        &&& final(bridge).guardian_set_index == new_index
                        &&& final(bridge).config == old(bridge).config
                        &&& *final(set) == Some(
                            superseded((*old(set))->0, now, old(bridge).config.guardian_set_expiration_time),
                        )
                        &&& *final(new_set) == Some(successor(new_index, new_keys, now))
                        &&& *final(proposal) == *old(proposal)
                    }
                },
                VaaBody::Transfer(t) => if t.source_chain == CHAIN_ID_SOLANA {
                    &&& *old(proposal) is None ==> r == Err::<Execution, BridgeError>(BridgeError::UnknownProposal)
                    &&& *old(proposal) matches Some(p) ==> {
                        &&& attach_error(p, t, vaa_bytes@.len()) matches Some(e) ==> r == Err::<Execution, BridgeError>(e)
                        &&& attach_error(p, t, vaa_bytes@.len()) is None ==> {
                            &&& r == Ok::<Execution, BridgeError>(
                                Execution { effect: Effect::TransferPosted, evict_signatures: true },
                            )
                            &&& *final(proposal) matches Some(q) && attached_as(p, q, vaa_bytes@, vaa.timestamp, record_key)
                            &&& *final(bridge) == *old(bridge) && *final(set) == *old(set)
                            &&& *final(new_set) == *old(new_set)
                        }
                    }
                } else {
                    &&& settle_error(old(bridge).config, t, mint, destination_mint) matches Some(e) ==> r == Err::<Execution, BridgeError>(e)
                    &&& settle_error(old(bridge).config, t, mint, destination_mint) is None ==> {
                        &&& r matches Ok(x) && !x.evict_signatures && (x.effect matches Effect::Ledger(a)
                            && settle_action_is(old(bridge).config, t, mint, a))
                        &&& *final(bridge) == *old(bridge) && *final(set) == *old(set)
                        &&& *final(new_set) == *old(new_set) && *final(proposal) == *old(proposal)
                    }
                },
                VaaBody::UpgradeContract { chain_id, buffer } => {
                    &&& chain_id != CHAIN_ID_SOLANA ==> r == Err::<Execution, BridgeError>(BridgeError::WrongChain)
                    &&& chain_id == CHAIN_ID_SOLANA ==> {
                        &&& r == Ok::<Execution, BridgeError>(
                            Execution { effect: Effect::Upgrade { buffer }, evict_signatures: false },
                        )
                        &&& *final(bridge) == *old(bridge) && *final(set) == *old(set)
                        &&& *final(new_set) == *old(new_set) && *final(proposal) == *old(proposal)
                    }
                },
            },
    {
        let body_hash = keccak256(vaa.body.as_slice());
        let (key_count, set_index) = match set {
            Some(s) => {
                if s.index != vaa.guardian_set_index {
                    return Err(BridgeError::UnknownGuardianSet);
                }
                if !s.is_valid_at(now) {
                    return Err(BridgeError::GuardianSetExpired);
                }
                (s.keys.len(), s.index)
            },
            None => {
                return Err(BridgeError::UnknownGuardianSet);
            },
        };
        match record {
            Some(rec) => {
                if rec.guardian_set_index != set_index {
                    return Err(BridgeError::GuardianSetMismatch);
                }
                if !bytes_equal(&rec.message_hash, &body_hash) {
                    return Err(BridgeError::HashMismatch);
                }
                if !rec.has_quorum(key_count) {
                    return Err(BridgeError::QuorumNotReached);
                }
            },
            None => {
                return Err(BridgeError::NoSignatures);
            },
        }
        if claim.claimed {
            return Err(BridgeError::AlreadyClaimed);
        }
        let timestamp = vaa.timestamp;
        let execution = match vaa.payload {
            VaaBody::UpdateGuardianSet { new_index, new_keys } => {
                let old_set = match set {
                    Some(s) => s,
                    None => {
                        return Err(BridgeError::UnknownGuardianSet);
                    },
                };
                match Bridge::process_vaa_set_update(bridge, old_set, new_set, new_index, new_keys, now) {
                    Ok(()) => {},
                    Err(e) => {
                        return Err(e);
                    },
                }
                Execution { effect: Effect::GuardianSetRotated, evict_signatures: true }
            },
            VaaBody::Transfer(t) => {
                if t.source_chain == CHAIN_ID_SOLANA {
                    let p = match proposal {
                        Some(p) => p,
                        None => {
                            return Err(BridgeError::UnknownProposal);
                        },
                    };
                    match Bridge::process_vaa_transfer_post(p, &t, vaa_bytes, timestamp, record_key) {
                        Ok(()) => {},
                        Err(e) => {
                            return Err(e);
                        },
                    }
                    Execution { effect: Effect::TransferPosted, evict_signatures: true }
                } else {
                    match Bridge::process_vaa_transfer(&bridge.config, &t, mint, destination_mint) {
                        Ok(a) => Execution { effect: Effect::Ledger(a), evict_signatures: false },
                        Err(e) => {
                            return Err(e);
                        },
                    }
                }
            },
            VaaBody::UpgradeContract { chain_id, buffer } => {
                if chain_id != CHAIN_ID_SOLANA {
                    return Err(BridgeError::WrongChain);
                }
                Execution { effect: Effect::Upgrade { buffer }, evict_signatures: false }
            },
        };
        claim.claimed = true;
        claim.claimed_at = now;
        Ok(execution)
    }
}

/// Addresses of the records the host passes to [`Bridge::process_vaa`].
#[derive(Debug, Clone, Copy, PartialEq, Eq)]
pub struct VaaAccounts {
    pub guardian_set: [u8; 32],
    pub signatures: [u8; 32],
    pub claim: [u8; 32],
}

/// Whether the accounts are the records derived for `vaa`: the guardian set at
/// its index, and the signature record and claim of its body digest.
pub open spec fn vaa_accounts_ok(config: BridgeConfig, vaa: Vaa, accounts: VaaAccounts) -> bool {
    let h = keccak256_of(vaa.body@);
    &&& is_derived(
        config.program_id@,
        guardian_set_seeds(config.bridge_key@, vaa.guardian_set_index),
        accounts.guardian_set,
    )
    &&& is_derived(
        config.program_id@,
        signature_seeds(config.bridge_key@, h, vaa.guardian_set_index),
        accounts.signatures,
    )
    &&& is_derived(config.program_id@, claim_seeds(config.bridge_key@, h), accounts.claim)
}

/// Checks that the host passes, for `vaa`, the records at their derived addresses,
/// so that the claim consulted is the one that blocks this message's replay.
pub fn check_vaa_accounts(config: &BridgeConfig, vaa: &Vaa, accounts: &VaaAccounts) -> (r: Result<(), BridgeError>)
    ensures
        r is Ok <==> vaa_accounts_ok(*config, *vaa, *accounts),
        r matches Err(e) ==> e == BridgeError::InvalidDerivedAccount,
{
    let h = keccak256(vaa.body.as_slice());
    let set = guardian_set_key(&config.program_id, &config.bridge_key, vaa.guardian_set_index);
    match expect_key(set, &accounts.guardian_set) {
        Ok(()) => {},
        Err(e) => {
            return Err(e);
        },
    }
    let sigs = signature_record_key(&config.program_id, &config.bridge_key, &h, vaa.guardian_set_index);
    match expect_key(sigs, &accounts.signatures) {
        Ok(()) => {},
        Err(e) => {
            return Err(e);
        },
    }
    expect_key(claim_key(&config.program_id, &config.bridge_key, &h), &accounts.claim)
}

/// A guardian set superseded at `now` with grace period `grace` still admits the
/// messages it signed before `now + grace`, and from that instant on they are
/// refused as signed by an expired set.
pub proof fn lemma_superseded_set_admission(
    vaa: Vaa,
    old_set: GuardianSet,
    record: Option<SignatureRecord>,
    rotated_at: u32,
    grace: u32,
    now: u32,
)
    requires
        old_set.index == vaa.guardian_set_index,
        rotated_at + grace <= u32::MAX,
        rotated_at + grace > 0,
    ensures
        now >= rotated_at + grace ==> consensus_error(
            vaa,
            now,
            Some(superseded(old_set, rotated_at, grace)),
            record,
        ) == Some(BridgeError::GuardianSetExpired),
        now < rotated_at + grace ==> consensus_error(
            vaa,
            now,
            Some(superseded(old_set, rotated_at, grace)),
            record,
        ) == consensus_error(vaa, now, Some(GuardianSet { expires_at: 0, ..old_set }), record),
{
}

} // verus!
