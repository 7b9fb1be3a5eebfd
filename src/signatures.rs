//! Per-message aggregation of guardian signatures and the quorum rule.
use crate::bytes::{bytes_equal, keccak256, keccak256_of};
use crate::error::BridgeError;
use crate::guardian::GuardianSet;
use vstd::prelude::*;

verus! {

/// Number of signature slots a record holds.
pub const MAX_SIGNATURE_SLOTS: usize = 64;

/// A recoverable secp256k1 signature.
pub type Signature = [u8; 65];

/// The signatures gathered for one message under one guardian set.
#[derive(Debug, Clone, PartialEq, Eq)]
pub struct SignatureRecord {
    pub guardian_set_index: u32,
    pub message_hash: [u8; 32],
    /// One slot per guardian key slot; `None` where no signature was recorded.
    pub signatures: Vec<Option<Signature>>,
}

/// A signature whose signer was recovered outside the core, attributed to a key slot.
#[derive(Debug, Clone, Copy, PartialEq, Eq)]
pub struct SignerEntry {
    pub slot: usize,
    pub address: [u8; 20],
    pub signature: Signature,
}

/// Why an entry cannot be recorded against `set`, if it cannot.
pub open spec fn entry_error(set: GuardianSet, e: SignerEntry) -> Option<BridgeError> {
    if e.slot >= set.keys@.len() {
        Some(BridgeError::SlotOutOfRange)
    } else if set.keys@[e.slot as int]@ != e.address@ {
        Some(BridgeError::KeyMismatch)
    } else {
        None
    }
}

/// The error of the first entry from position `i` on that cannot be recorded.
pub open spec fn batch_error_from(set: GuardianSet, batch: Seq<SignerEntry>, i: int) -> Option<
    BridgeError,
>
    decreases batch.len() - i,
{
    if i < 0 || i >= batch.len() {
        None
    } else {
        match entry_error(set, batch[i]) {
            Some(e) => Some(e),
            None => batch_error_from(set, batch, i + 1),
        }
    }
}

/// The slots of a record before any signature was written.
pub open spec fn empty_slots() -> Seq<Option<Signature>> {
    Seq::new(MAX_SIGNATURE_SLOTS as nat, |i: int| None::<Signature>)
}

/// The slots a record starts an ingestion from.
pub open spec fn slots_before(record: Option<SignatureRecord>) -> Seq<Option<Signature>> {
    match record {
        Some(rec) => rec.signatures@,
        None => empty_slots(),
    }
}

/// Slots after writing each entry of `batch` in order; a later entry for a slot
/// replaces an earlier signature.
pub open spec fn apply_batch(slots: Seq<Option<Signature>>, batch: Seq<SignerEntry>) -> Seq<
    Option<Signature>,
>
    decreases batch.len(),
{
    if batch.len() == 0 {
        slots
    } else {
        apply_batch(slots, batch.drop_last()).update(
            batch.last().slot as int,
            Some(batch.last().signature),
        )
    }
}

/// Why ingesting `batch` for a message with digest `digest` is refused, if it is.
pub open spec fn ingest_error(
    record: Option<SignatureRecord>,
    set: GuardianSet,
    message_hash: [u8; 32],
    digest: Seq<u8>,
    batch: Seq<SignerEntry>,
) -> Option<BridgeError> {
    if digest != message_hash@ {
        Some(BridgeError::HashMismatch)
    } else if record is Some && record->0.guardian_set_index != set.index {
        Some(BridgeError::GuardianSetMismatch)
    } else if record is Some && record->0.message_hash@ != message_hash@ {
        Some(BridgeError::HashMismatch)
    } else {
        batch_error_from(set, batch, 0)
    }
}

/// Number of filled slots.
pub open spec fn filled_count(slots: Seq<Option<Signature>>) -> nat
    decreases slots.len(),
{
    if slots.len() == 0 {
        0
    } else {
        filled_count(slots.drop_last()) + if slots.last() is Some {
            1nat
        } else {
            0nat
        }
    }
}

/// The supermajority rule: strictly more than two thirds of the keys, with two
/// thirds taken in fixed point with one decimal and rounded down.
pub open spec fn quorum_reached(count: int, key_count: int) -> bool {
    count * 10 > (key_count * 10 / 3) * 2
}

impl SignatureRecord {
    pub open spec fn wf(&self) -> bool {
        self.signatures@.len() == MAX_SIGNATURE_SLOTS
    }

    /// Number of guardians whose signature is recorded.
    pub fn quorum_count(&self) -> (r: u32)
        requires
            self.wf(),
        ensures
            r == filled_count(self.signatures@),
    {
        let mut count: u32 = 0;
        let mut i: usize = 0;
        while i < self.signatures.len()
            invariant
                self.wf(),
                i <= self.signatures@.len(),
                count == filled_count(self.signatures@.subrange(0, i as int)),
                count <= i,
            decreases self.signatures@.len() - i,
        {
            assert(self.signatures@.subrange(0, i + 1).drop_last() == self.signatures@.subrange(
                0,
                i as int,
            ));
            if self.signatures[i].is_some() {
                count = count + 1;
            }
            i = i + 1;
        }
        assert(self.signatures@ == self.signatures@.subrange(0, i as int));
        count
    }

    /// Whether the recorded signatures reach quorum for a set of `key_count` keys.
    pub fn has_quorum(&self, key_count: usize) -> (r: bool)
        requires
            self.wf(),
        ensures
            r == quorum_reached(filled_count(self.signatures@) as int, key_count as int),
    {
        has_quorum(self.quorum_count(), key_count)
    }
}

/// Whether `count` signatures reach quorum for a set of `key_count` keys.
pub fn has_quorum(count: u32, key_count: usize) -> (r: bool)
    ensures
        r == quorum_reached(count as int, key_count as int),
{
    let two_thirds: u128 = ((key_count as u128) * 10 / 3) * 2;
    (count as u128) * 10 > two_thirds
}

/// The least number of signatures that reaches quorum for a set of `key_count` keys.
pub fn quorum_threshold(key_count: usize) -> (r: u64)
    ensures
        quorum_reached(r as int, key_count as int),
        r > 0 ==> !quorum_reached(r - 1, key_count as int),
{
    let two_thirds: u128 = ((key_count as u128) * 10 / 3) * 2;
    let t: u128 = two_thirds / 10 + 1;
    assert(t * 10 > two_thirds && (t - 1) * 10 <= two_thirds) by (nonlinear_arith)
        requires
            t == two_thirds / 10 + 1,
            two_thirds >= 0,
    ;
    assert(t <= u64::MAX) by (nonlinear_arith)
        requires
            t == two_thirds / 10 + 1,
            two_thirds == ((key_count as int) * 10 / 3) * 2,
            key_count <= usize::MAX,
    ;
    t as u64
}

proof fn lemma_batch_ok_from(set: GuardianSet, batch: Seq<SignerEntry>, i: int)
    requires
        0 <= i,
        batch_error_from(set, batch, i) is None,
    ensures
        forall|j: int| i <= j < batch.len() ==> entry_error(set, #[trigger] batch[j]) is None,
    decreases batch.len() - i,
{
    if i < batch.len() {
        lemma_batch_ok_from(set, batch, i + 1);
    }
}

/// Finds the first entry of `batch` that cannot be recorded against `set`.
fn check_batch(set: &GuardianSet, batch: &Vec<SignerEntry>) -> (r: Option<BridgeError>)
    ensures
        r == batch_error_from(*set, batch@, 0),
{
    let mut i: usize = 0;
    while i < batch.len()
        invariant
            i <= batch@.len(),
            batch_error_from(*set, batch@, 0) == batch_error_from(*set, batch@, i as int),
        decreases batch@.len() - i,
    {
        let e = batch[i];
        if e.slot >= set.keys.len() {
            return Some(BridgeError::SlotOutOfRange);
        }
        if !bytes_equal(&set.keys[e.slot], &e.address) {
            return Some(BridgeError::KeyMismatch);
        }
        i = i + 1;
    }
    None
}

/// Writes each entry's signature into its slot, in order.
fn write_batch(slots: &mut Vec<Option<Signature>>, batch: &Vec<SignerEntry>)
    requires
        forall|j: int| 0 <= j < batch@.len() ==> #[trigger] batch@[j].slot < old(slots)@.len(),
    ensures
        final(slots)@ == apply_batch(old(slots)@, batch@),
        final(slots)@.len() == old(slots)@.len(),
{
    let mut i: usize = 0;
    while i < batch.len()
        invariant
            i <= batch@.len(),
            slots@.len() == old(slots)@.len(),
            forall|j: int| 0 <= j < batch@.len() ==> #[trigger] batch@[j].slot < slots@.len(),
            slots@ == apply_batch(old(slots)@, batch@.subrange(0, i as int)),
        decreases batch@.len() - i,
    {
        let e = batch[i];
        assert(batch@.subrange(0, i + 1).drop_last() == batch@.subrange(0, i as int));
        slots[e.slot] = Some(e.signature);
        i = i + 1;
    }
    assert(batch@ == batch@.subrange(0, i as int));
}

/// Records the signatures of `batch` for the message `message`, whose digest the
/// caller claims is `message_hash`, under the guardian set `set`.
///
/// The first call for a message creates its record; later calls must agree with
/// it on the guardian set and the digest. Either every entry is recorded or,
/// on an error, the record is left as it was.
pub fn ingest(
    record: &mut Option<SignatureRecord>,
    set: &GuardianSet,
    message_hash: [u8; 32],
    message: &[u8],
    batch: &Vec<SignerEntry>,
) -> (r: Result<(), BridgeError>)
    requires
        set.wf(),
        *old(record) matches Some(rec) ==> rec.wf(),
    ensures
        ingest_error(*old(record), *set, message_hash, keccak256_of(message@), batch@) matches Some(
            e,
        ) ==> r == Err::<(), BridgeError>(e) && *final(record) == *old(record),
        ingest_error(*old(record), *set, message_hash, keccak256_of(message@), batch@) is None ==> {
            &&& r is Ok
            &&& *final(record) is Some
            &&& (*final(record))->0.wf()
            &&& (*final(record))->0.guardian_set_index == set.index
            &&& (*final(record))->0.message_hash == message_hash
            &&& (*final(record))->0.signatures@ == apply_batch(slots_before(*old(record)), batch@)
        },
{
    let digest = keccak256(message);
    if !bytes_equal(&digest, &message_hash) {
        return Err(BridgeError::HashMismatch);
    }
    match record {
        Some(rec) => {
            if rec.guardian_set_index != set.index {
                return Err(BridgeError::GuardianSetMismatch);
            }
            if !bytes_equal(&rec.message_hash, &message_hash) {
                return Err(BridgeError::HashMismatch);
            }
            assert(rec.message_hash == message_hash) by {
                vstd::array::axiom_array_ext_equal(rec.message_hash, message_hash);
            }
        },
        None => {},
    }
    match check_batch(set, batch) {
        Some(e) => {
            return Err(e);
        },
        None => {},
    }
    proof {
        lemma_batch_ok_from(*set, batch@, 0);
        assert forall|j: int| 0 <= j < batch@.len() implies #[trigger] batch@[j].slot
            < MAX_SIGNATURE_SLOTS by {
            assert(entry_error(*set, batch@[j]) is None);
        }
    }
    match record {
        Some(rec) => {
            write_batch(&mut rec.signatures, batch);
        },
        None => {
            let mut slots: Vec<Option<Signature>> = Vec::new();
            while slots.len() < MAX_SIGNATURE_SLOTS
                invariant
                    slots@.len() <= MAX_SIGNATURE_SLOTS,
                    forall|j: int| 0 <= j < slots@.len() ==> slots@[j] is None,
                decreases MAX_SIGNATURE_SLOTS - slots@.len(),
            {
                slots.push(None);
            }
            assert(slots@ == empty_slots());
            write_batch(&mut slots, batch);
            *record = Some(
                SignatureRecord { guardian_set_index: set.index, message_hash, signatures: slots },
            );
        },
    }
    Ok(())
}

/// Submissions for different guardian slots commute: recording one signer's
/// entry and then another's leaves the same slots as the opposite order.
pub proof fn lemma_distinct_slots_commute(slots: Seq<Option<Signature>>, first: SignerEntry, second: SignerEntry)
    requires
        first.slot != second.slot,
        first.slot < slots.len(),
        second.slot < slots.len(),
    ensures
        apply_batch(apply_batch(slots, seq![first]), seq![second]) == apply_batch(
            apply_batch(slots, seq![second]),
            seq![first],
        ),
{
    assert(seq![first].drop_last() == Seq::<SignerEntry>::empty());
    assert(seq![second].drop_last() == Seq::<SignerEntry>::empty());
    reveal_with_fuel(apply_batch, 2);
    assert(seq![first].last() == first);
    assert(seq![second].last() == second);
    let a = apply_batch(slots, seq![first]);
    let b = apply_batch(slots, seq![second]);
    assert(a == slots.update(first.slot as int, Some(first.signature)));
    assert(b == slots.update(second.slot as int, Some(second.signature)));
    assert(apply_batch(a, seq![second]) == a.update(second.slot as int, Some(second.signature)));
    assert(apply_batch(b, seq![first]) == b.update(first.slot as int, Some(first.signature)));
    assert(apply_batch(apply_batch(slots, seq![first]), seq![second]) =~= apply_batch(
        apply_batch(slots, seq![second]),
        seq![first],
    ));
}

proof fn lemma_none_count(s: Seq<Option<Signature>>)
    requires
        forall|j: int| 0 <= j < s.len() ==> s[j] is None,
    ensures
        filled_count(s) == 0,
    decreases s.len(),
{
    if s.len() > 0 {
        lemma_none_count(s.drop_last());
    }
}

proof fn lemma_fill_one(s: Seq<Option<Signature>>, i: int, sig: Signature)
    requires
        0 <= i < s.len(),
        s[i] is None,
    ensures
        filled_count(s.update(i, Some(sig))) == filled_count(s) + 1,
    decreases s.len(),
{
    let t = s.update(i, Some(sig));
    if i == s.len() - 1 {
        assert(t.drop_last() == s.drop_last());
    } else {
        assert(t.drop_last() == s.drop_last().update(i, Some(sig)));
        lemma_fill_one(s.drop_last(), i, sig);
    }
}

/// Three guardians of a three-key set, each submitting its own slot in a separate
/// call to a new record, fill three slots, which reaches quorum.
pub proof fn lemma_three_signers_reach_quorum(e0: SignerEntry, e1: SignerEntry, e2: SignerEntry)
    requires
        e0.slot == 0,
        e1.slot == 1,
        e2.slot == 2,
    ensures
        filled_count(apply_batch(apply_batch(apply_batch(empty_slots(), seq![e0]), seq![e1]), seq![e2]))
            == 3,
        quorum_reached(3, 3),
{
    reveal_with_fuel(apply_batch, 2);
    assert(seq![e0].drop_last() == Seq::<SignerEntry>::empty());
    assert(seq![e1].drop_last() == Seq::<SignerEntry>::empty());
    assert(seq![e2].drop_last() == Seq::<SignerEntry>::empty());
    let s0 = empty_slots();
    lemma_none_count(s0);
    let s1 = apply_batch(s0, seq![e0]);
    assert(s1 == s0.update(0, Some(e0.signature)));
    lemma_fill_one(s0, 0, e0.signature);
    let s2 = apply_batch(s1, seq![e1]);
    assert(s2 == s1.update(1, Some(e1.signature)));
    lemma_fill_one(s1, 1, e1.signature);
    let s3 = apply_batch(s2, seq![e2]);
    assert(s3 == s2.update(2, Some(e2.signature)));
    lemma_fill_one(s2, 2, e2.signature);
}

} // verus!
