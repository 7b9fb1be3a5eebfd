//! Reading the secp256k1 verification instruction that precedes a signature
//! submission, and turning it into entries for the signature aggregator.
use crate::bytes::{array_at, keccak256_of, le_value, read_u16_le};
use crate::derive::{expect_key, guardian_set_key, guardian_set_seeds, is_derived, signature_record_key, signature_seeds};
use crate::error::BridgeError;
use crate::state::{Bridge, BridgeConfig};
use crate::guardian::GuardianSet;
use crate::signatures::{
    apply_batch, ingest, ingest_error, slots_before, SignatureRecord, SignerEntry,
};
use vstd::prelude::*;

verus! {

/// Bytes of one offsets entry of the instruction.
pub const SECP_ENTRY_LEN: usize = 11;

/// One signature the host verified: the recovered address, the signature, and
/// where the signed message lies in the instruction data.
#[derive(Debug, Clone, Copy, PartialEq, Eq)]
pub struct SecpSignature {
    pub address: [u8; 20],
    pub signature: [u8; 65],
    pub msg_offset: u16,
    pub msg_size: u16,
}

/// Guardian slot `slot` signed with the instruction's signature `sig_index`.
#[derive(Debug, Clone, Copy, PartialEq, Eq)]
pub struct SignerRef {
    pub slot: usize,
    pub sig_index: u8,
}

/// The little-endian 16-bit value at `p`.
pub open spec fn u16_at(data: Seq<u8>, p: int) -> int {
    le_value(data.subrange(p, p + 2)) as int
}

/// Whether offsets entry `i` lies in `data`, points into instruction `ix` only,
/// references in-bounds address and signature bytes, and names the same message
/// as entry 0.
pub open spec fn secp_entry_ok(data: Seq<u8>, ix: u8, i: int) -> bool {
    let b = 1 + SECP_ENTRY_LEN * i;
    &&& b + SECP_ENTRY_LEN <= data.len()
    &&& data[b + 2] == ix
    &&& data[b + 5] == ix
    &&& data[b + 10] == ix
    &&& u16_at(data, b + 3) + 20 <= data.len()
    &&& u16_at(data, b) + 65 <= data.len()
    &&& u16_at(data, b + 6) == u16_at(data, 7)
    &&& u16_at(data, b + 8) == u16_at(data, 9)
}

/// Whether the instruction data is well formed for instruction index `ix`.
pub open spec fn secp_layout_ok(data: Seq<u8>, ix: u8) -> bool {
    &&& data.len() >= 2
    &&& forall|i: int| 0 <= i < data[0] ==> secp_entry_ok(data, ix, i)
}

/// Whether `sig` is the signature that offsets entry `i` of `data` references.
pub open spec fn entry_signature_is(data: Seq<u8>, i: int, sig: [u8; 65]) -> bool {
    let o = u16_at(data, 1 + SECP_ENTRY_LEN * i);
    sig@ == data.subrange(o, o + 65)
}

/// Whether `address` is the recovered address that offsets entry `i` of `data` references.
pub open spec fn entry_address_is(data: Seq<u8>, i: int, address: [u8; 20]) -> bool {
    let o = u16_at(data, 1 + SECP_ENTRY_LEN * i + 3);
    address@ == data.subrange(o, o + 20)
}

/// Whether `e` holds what offsets entry `i` of `data` references.
pub open spec fn secp_entry_is(data: Seq<u8>, i: int, e: SecpSignature) -> bool {
    let b = 1 + SECP_ENTRY_LEN * i;
    &&& entry_signature_is(data, i, e.signature)
    &&& entry_address_is(data, i, e.address)
    &&& e.msg_offset == u16_at(data, b + 6)
    &&& e.msg_size == u16_at(data, b + 8)
}

/// The guardian slots that signed, in slot order: every entry of `signers` that
/// is not -1 names the instruction signature of the guardian at its position.
pub open spec fn signer_refs(signers: Seq<i8>) -> Seq<SignerRef>
    decreases signers.len(),
{
    if signers.len() == 0 {
        Seq::empty()
    } else {
        let prev = signer_refs(signers.drop_last());
        if signers.last() == -1 {
            prev
        } else {
            prev.push(
                SignerRef { slot: (signers.len() - 1) as usize, sig_index: signers.last() as u8 },
            )
        }
    }
}

/// Whether the instruction's signatures pair one for one with the signer
/// references, and `batch` is what they attribute to each slot.
pub open spec fn batch_from_instruction(
    data: Seq<u8>,
    signers: Seq<i8>,
    batch: Seq<SignerEntry>,
) -> bool {
    let refs = signer_refs(signers);
    &&& refs.len() == data[0]
    &&& batch.len() == refs.len()
    &&& forall|k: int|
        0 <= k < refs.len() ==> {
            &&& refs[k].sig_index < data[0]
            &&& #[trigger] batch[k].slot == refs[k].slot
            &&& entry_signature_is(data, refs[k].sig_index as int, batch[k].signature)
            &&& entry_address_is(data, refs[k].sig_index as int, batch[k].address)
        }
}

/// Whether the signer references are usable with the instruction: as many as its
/// signatures, each naming one of them, and the shared message lies in the data.
pub open spec fn signers_ok(data: Seq<u8>, signers: Seq<i8>) -> bool {
    let refs = signer_refs(signers);
    &&& refs.len() == data[0]
    &&& data[0] > 0
    &&& forall|k: int| 0 <= k < refs.len() ==> (#[trigger] refs[k]).sig_index < data[0]
    &&& u16_at(data, 7) + u16_at(data, 9) <= data.len()
}

/// The message every signature of the instruction signs.
pub open spec fn signed_message(data: Seq<u8>) -> Seq<u8> {
    data.subrange(u16_at(data, 7), u16_at(data, 7) + u16_at(data, 9))
}

/// Reads the offsets table of a secp256k1 verification instruction that stands
/// at index `ix` of its transaction.
pub fn parse_secp_instruction(data: &[u8], ix: u8) -> (r: Result<Vec<SecpSignature>, BridgeError>)
    ensures
        r is Ok <==> secp_layout_ok(data@, ix),
        r matches Err(e) ==> e == BridgeError::InvalidSignatureInstruction,
        r matches Ok(v) ==> v@.len() == data@[0] && forall|i: int|
            0 <= i < v@.len() ==> secp_entry_is(data@, i, #[trigger] v@[i]),
{
    let len = data.len();
    if len < 2 {
        return Err(BridgeError::InvalidSignatureInstruction);
    }
    let count = data[0];
    let mut out: Vec<SecpSignature> = Vec::new();
    let mut i: u8 = 0;
    while i < count
        invariant
            len == data@.len(),
            len >= 2,
            count == data@[0],
            i <= count,
            out@.len() == i,
            forall|j: int| 0 <= j < i ==> secp_entry_ok(data@, ix, j),
            forall|j: int| 0 <= j < i ==> secp_entry_is(data@, j, #[trigger] out@[j]),
        decreases count - i,
    {
        let b: usize = 1 + SECP_ENTRY_LEN * (i as usize);
        if b + SECP_ENTRY_LEN > len {
            assert(!secp_entry_ok(data@, ix, i as int));
            return Err(BridgeError::InvalidSignatureInstruction);
        }
        let sig_offset = read_u16_le(&data[b..b + 2]);
        let address_offset = read_u16_le(&data[b + 3..b + 5]);
        let msg_offset = read_u16_le(&data[b + 6..b + 8]);
        let msg_size = read_u16_le(&data[b + 8..b + 10]);
        let first_offset = read_u16_le(&data[7..9]);
        let first_size = read_u16_le(&data[9..11]);
        assert(data@.subrange(b as int, b + 2) == data@.subrange(b as int, b + 2).subrange(0, 2));
        assert(data@.subrange(b + 3, b + 5) == data@.subrange(b + 3, b + 5).subrange(0, 2));
        assert(data@.subrange(b + 6, b + 8) == data@.subrange(b + 6, b + 8).subrange(0, 2));
        assert(data@.subrange(b + 8, b + 10) == data@.subrange(b + 8, b + 10).subrange(0, 2));
        assert(data@.subrange(7, 9) == data@.subrange(7, 9).subrange(0, 2));
        assert(data@.subrange(9, 11) == data@.subrange(9, 11).subrange(0, 2));
        assert(sig_offset == u16_at(data@, b as int));
        assert(address_offset == u16_at(data@, b + 3));
        assert(msg_offset == u16_at(data@, b + 6));
        assert(msg_size == u16_at(data@, b + 8));
        assert(first_offset == u16_at(data@, 7));
        assert(first_size == u16_at(data@, 9));
        if data[b + 2] != ix || data[b + 5] != ix || data[b + 10] != ix {
            assert(!secp_entry_ok(data@, ix, i as int));
            return Err(BridgeError::InvalidSignatureInstruction);
        }
        if address_offset as usize + 20 > len || sig_offset as usize + 65 > len {
            assert(!secp_entry_ok(data@, ix, i as int));
            return Err(BridgeError::InvalidSignatureInstruction);
        }
        if msg_offset != first_offset || msg_size != first_size {
            assert(!secp_entry_ok(data@, ix, i as int));
            return Err(BridgeError::InvalidSignatureInstruction);
        }
        let address: [u8; 20] = array_at(data, address_offset as usize);
        let signature: [u8; 65] = array_at(data, sig_offset as usize);
        out.push(SecpSignature { address, signature, msg_offset, msg_size });
        i = i + 1;
    }
    Ok(out)
}

/// The signer references of `signers`, in slot order.
pub fn collect_signer_refs(signers: &[i8]) -> (r: Vec<SignerRef>)
    ensures
        r@ == signer_refs(signers@),
{
    let mut out: Vec<SignerRef> = Vec::new();
    let mut i: usize = 0;
    while i < signers.len()
        invariant
            i <= signers@.len(),
            out@ == signer_refs(signers@.subrange(0, i as int)),
        decreases signers@.len() - i,
    {
        assert(signers@.subrange(0, i + 1).drop_last() == signers@.subrange(0, i as int));
        if signers[i] != -1 {
            out.push(SignerRef { slot: i, sig_index: signers[i] as u8 });
        }
        i = i + 1;
    }
    assert(signers@ == signers@.subrange(0, i as int));
    out
}

/// Attributes each referenced signature to its guardian slot.
fn build_batch(refs: &Vec<SignerRef>, sigs: &Vec<SecpSignature>) -> (r: Option<Vec<SignerEntry>>)
    ensures
        r is Some <==> forall|k: int| 0 <= k < refs@.len() ==> (#[trigger] refs@[k]).sig_index
            < sigs@.len(),
        r matches Some(b) ==> b@.len() == refs@.len() && forall|k: int|
            0 <= k < refs@.len() ==> {
                &&& #[trigger] b@[k].slot == refs@[k].slot
                &&& b@[k].signature == sigs@[refs@[k].sig_index as int].signature
                &&& b@[k].address == sigs@[refs@[k].sig_index as int].address
            },
{
    let mut out: Vec<SignerEntry> = Vec::new();
    let mut k: usize = 0;
    while k < refs.len()
        invariant
            k <= refs@.len(),
            out@.len() == k,
            forall|j: int| 0 <= j < k ==> (#[trigger] refs@[j]).sig_index < sigs@.len(),
            forall|j: int|
                0 <= j < k ==> {
                    &&& (#[trigger] out@[j]).slot == refs@[j].slot
                    &&& out@[j].signature == sigs@[refs@[j].sig_index as int].signature
                    &&& out@[j].address == sigs@[refs@[j].sig_index as int].address
                },
        decreases refs@.len() - k,
    {
        let s = refs[k];
        if s.sig_index as usize >= sigs.len() {
            return None;
        }
        let sig = sigs[s.sig_index as usize];
        out.push(SignerEntry { slot: s.slot, address: sig.address, signature: sig.signature });
        k = k + 1;
    }
    Some(out)
}

impl Bridge {
    /// Records the guardian signatures that the secp256k1 instruction `secp_data`
    /// (at index `secp_ix` of the transaction) verified for a message whose digest
    /// the caller claims is `message_hash`.
    ///
    /// `signers[i]` is the instruction signature made by the guardian at slot `i`,
    /// or -1. The message is re-hashed here; the signature record changes only on success.
    pub fn process_verify_signatures(
        record: &mut Option<SignatureRecord>,
        set: &GuardianSet,
        message_hash: [u8; 32],
        secp_data: &[u8],
        secp_ix: u8,
        signers: &[i8],
    ) -> (r: Result<(), BridgeError>)
        requires
            set.wf(),
            *old(record) matches Some(rec) ==> rec.wf(),
        ensures
            r is Err ==> *final(record) == *old(record),
            !(secp_layout_ok(secp_data@, secp_ix) && signers_ok(secp_data@, signers@)) ==> r
                == Err::<(), BridgeError>(BridgeError::InvalidSignatureInstruction),
            secp_layout_ok(secp_data@, secp_ix) && signers_ok(secp_data@, signers@) ==> exists|
                batch: Seq<SignerEntry>,
            |
                {
                    &&& batch_from_instruction(secp_data@, signers@, batch)
                    &&& #[trigger] ingest_error(
                        *old(record),
                        *set,
                        message_hash,
                        keccak256_of(signed_message(secp_data@)),
                        batch,
                    ) matches Some(e) ==> r == Err::<(), BridgeError>(e)
                    &&& ingest_error(
                        *old(record),
                        *set,
                        message_hash,
                        keccak256_of(signed_message(secp_data@)),
                        batch,
                    ) is None ==> {
                        &&& r is Ok
                        &&& *final(record) is Some
                        &&& (*final(record))->0.wf()
                        &&& (*final(record))->0.guardian_set_index == set.index
                        &&& (*final(record))->0.message_hash == message_hash
                        &&& (*final(record))->0.signatures@ == apply_batch(
                            slots_before(*old(record)),
                            batch,
                        )
                    }
                },
    {
        let sigs = match parse_secp_instruction(secp_data, secp_ix) {
            Ok(s) => s,
            Err(e) => {
                return Err(e);
            },
        };
        let refs = collect_signer_refs(signers);
        if refs.len() != sigs.len() || sigs.len() == 0 {
            return Err(BridgeError::InvalidSignatureInstruction);
        }
        let batch = match build_batch(&refs, &sigs) {
            Some(b) => b,
            None => {
                return Err(BridgeError::InvalidSignatureInstruction);
            },
        };
        let offset = sigs[0].msg_offset as usize;
        let size = sigs[0].msg_size as usize;
        if offset + size > secp_data.len() {
            return Err(BridgeError::InvalidSignatureInstruction);
        }
        proof {
            assert(secp_entry_is(secp_data@, 0, sigs@[0]));
            assert forall|k: int| 0 <= k < refs@.len() implies {
                &&& entry_signature_is(secp_data@, refs@[k].sig_index as int, #[trigger] batch@[k].signature)
                &&& entry_address_is(secp_data@, refs@[k].sig_index as int, batch@[k].address)
            } by {
                assert(batch@[k].slot == refs@[k].slot);
                assert(refs@[k].sig_index < sigs@.len());
                assert(secp_entry_is(secp_data@, refs@[k].sig_index as int, sigs@[refs@[k].sig_index as int]));
            }
            assert(batch_from_instruction(secp_data@, signers@, batch@));
        }
        let message = &secp_data[offset..offset + size];
        assert(message@ == signed_message(secp_data@));
        ingest(record, set, message_hash, message, &batch)
    }
}

/// Checks that the host passes, for a submission under guardian set `set_index`
/// for the message digest `message_hash`, the guardian set and the signature
/// record at their derived addresses.
pub fn check_signature_accounts(
    config: &BridgeConfig,
    set_index: u32,
    message_hash: &[u8; 32],
    set_account: &[u8; 32],
    record_account: &[u8; 32],
) -> (r: Result<(), BridgeError>)
    ensures
        r is Ok <==> is_derived(
            config.program_id@,
            guardian_set_seeds(config.bridge_key@, set_index),
            *set_account,
        ) && is_derived(
            config.program_id@,
            signature_seeds(config.bridge_key@, message_hash@, set_index),
            *record_account,
        ),
        r matches Err(e) ==> e == BridgeError::InvalidDerivedAccount,
{
    match expect_key(guardian_set_key(&config.program_id, &config.bridge_key, set_index), set_account) {
        Ok(()) => {},
        Err(e) => {
            return Err(e);
        },
    }
    expect_key(
        signature_record_key(&config.program_id, &config.bridge_key, message_hash, set_index),
        record_account,
    )
}

} // verus!
