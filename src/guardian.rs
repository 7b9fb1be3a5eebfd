//! Guardian sets: the versioned, rotating collections of trusted signing keys.
use crate::error::BridgeError;
use crate::state::{Bridge, BridgeConfig};
use vstd::prelude::*;

verus! {

/// The largest number of keys a guardian set holds.
pub const MAX_GUARDIANS: usize = 19;

/// A guardian's signing address.
pub type GuardianKey = [u8; 20];

/// One version of the guardian set. The position of a key is its authority slot.
#[derive(Debug, Clone, PartialEq, Eq)]
pub struct GuardianSet {
    pub index: u32,
    pub keys: Vec<GuardianKey>,
    pub created_at: u32,
    /// Zero while the set is active and has no successor.
    pub expires_at: u32,
}

/// Whether a number of keys is allowed for a guardian set.
pub open spec fn valid_key_count(n: nat) -> bool {
    1 <= n <= MAX_GUARDIANS
}

/// The expiry given to a superseded set: `now + grace`, held at the largest time.
pub open spec fn expiry_after(now: u32, grace: u32) -> u32 {
    if now + grace <= u32::MAX {
        (now + grace) as u32
    } else {
        u32::MAX
    }
}

/// Why a rotation from `old_set` to `new_index` is refused, if it is.
pub open spec fn rotation_error(
    old_set: GuardianSet,
    existing: Option<GuardianSet>,
    new_index: u32,
    key_count: nat,
) -> Option<BridgeError> {
    if new_index != old_set.index + 1 {
        Some(BridgeError::StaleRotation)
    } else if !valid_key_count(key_count) {
        Some(BridgeError::EmptyOrOversizedKeySet)
    } else if existing is Some {
        Some(BridgeError::AlreadyExists)
    } else {
        None
    }
}

/// The superseded set after a rotation at `now`.
pub open spec fn superseded(old_set: GuardianSet, now: u32, grace: u32) -> GuardianSet {
    GuardianSet { expires_at: expiry_after(now, grace), ..old_set }
}

/// The set a rotation creates.
pub open spec fn successor(new_index: u32, new_keys: Vec<GuardianKey>, now: u32) -> GuardianSet {
    GuardianSet { index: new_index, keys: new_keys, created_at: now, expires_at: 0 }
}

impl GuardianSet {
    pub open spec fn wf(&self) -> bool {
        valid_key_count(self.keys@.len())
    }

    pub open spec fn spec_is_valid_at(&self, time: u32) -> bool {
        self.expires_at == 0 || time < self.expires_at
    }

    /// Creates the first set of the bridge.
    pub fn new(index: u32, keys: Vec<GuardianKey>, now: u32) -> (r: Result<GuardianSet, BridgeError>)
        ensures
            valid_key_count(keys@.len()) ==> r == Ok::<GuardianSet, BridgeError>(successor(index, keys, now)),
            !valid_key_count(keys@.len()) ==> r == Err::<GuardianSet, BridgeError>(BridgeError::EmptyOrOversizedKeySet),
    {
        if keys.len() == 0 || keys.len() > MAX_GUARDIANS {
            return Err(BridgeError::EmptyOrOversizedKeySet);
        }
        Ok(GuardianSet { index, keys, created_at: now, expires_at: 0 })
    }

    /// Whether messages signed by this set are accepted at `time`.
    pub fn is_valid_at(&self, time: u32) -> (r: bool)
        ensures
            r == self.spec_is_valid_at(time),
    {
        self.expires_at == 0 || time < self.expires_at
    }
}

impl Bridge {
    /// Creates the bridge with `config` and its first guardian set, index 0,
    /// holding `initial_keys`.
    pub fn process_initialize(config: BridgeConfig, initial_keys: Vec<GuardianKey>, now: u32) -> (r: Result<
        (Bridge, GuardianSet),
        BridgeError,
    >)
        ensures
            valid_key_count(initial_keys@.len()) ==> r == Ok::<(Bridge, GuardianSet), BridgeError>(
                (Bridge { guardian_set_index: 0, config }, successor(0, initial_keys, now)),
            ),
            !valid_key_count(initial_keys@.len()) ==> r == Err::<(Bridge, GuardianSet), BridgeError>(
                BridgeError::EmptyOrOversizedKeySet,
            ),
    {
        match GuardianSet::new(0, initial_keys, now) {
            Ok(set) => Ok((Bridge { guardian_set_index: 0, config }, set)),
            Err(e) => Err(e),
        }
    }

    /// Replaces the guardian set `old_set` by a new set at `new_index` holding `new_keys`.
    ///
    /// `existing` is the record at the new index. On success the old set expires
    /// after the configured grace period, the new set is active with no expiry, and
    /// the bridge points at it. On failure nothing changes.
    pub fn process_vaa_set_update(
        bridge: &mut Bridge,
        old_set: &mut GuardianSet,
        existing: &mut Option<GuardianSet>,
        new_index: u32,
        new_keys: Vec<GuardianKey>,
        now: u32,
    ) -> (r: Result<(), BridgeError>)
        ensures
            rotation_error(*old(old_set), *old(existing), new_index, new_keys@.len()) matches Some(e)
                ==> r == Err::<(), BridgeError>(e) && *final(bridge) == *old(bridge)
                && *final(old_set) == *old(old_set) && *final(existing) == *old(existing),
            rotation_error(*old(old_set), *old(existing), new_index, new_keys@.len()) is None ==> {
                &&& r is Ok
                &&& final(bridge).guardian_set_index == new_index
                &&& final(bridge).config == old(bridge).config
                &&& *final(old_set) == superseded(
                    *old(old_set),
                    now,
                    old(bridge).config.guardian_set_expiration_time,
                )
                &&& *final(existing) == Some(successor(new_index, new_keys, now))
            },
    {
        if old_set.index == u32::MAX || new_index != old_set.index + 1 {
            return Err(BridgeError::StaleRotation);
        }
        if new_keys.len() == 0 || new_keys.len() > MAX_GUARDIANS {
            return Err(BridgeError::EmptyOrOversizedKeySet);
        }
        if existing.is_some() {
            return Err(BridgeError::AlreadyExists);
        }
        old_set.expires_at = now.saturating_add(bridge.config.guardian_set_expiration_time);
        *existing = Some(GuardianSet { index: new_index, keys: new_keys, created_at: now, expires_at: 0 });
        bridge.guardian_set_index = new_index;
        Ok(())
    }
}

/// A rotation is accepted only when it targets the index right after the signing
/// set's, and repeating an accepted rotation on the resulting records is refused
/// because the new set already exists.
pub proof fn lemma_rotation_once(
    old_set: GuardianSet,
    existing: Option<GuardianSet>,
    new_index: u32,
    new_keys: Vec<GuardianKey>,
    now: u32,
    grace: u32,
)
    ensures
        rotation_error(old_set, existing, new_index, new_keys@.len()) is None ==> new_index
            == old_set.index + 1,
        rotation_error(old_set, existing, new_index, new_keys@.len()) is None ==> rotation_error(
            superseded(old_set, now, grace),
            Some(successor(new_index, new_keys, now)),
            new_index,
            new_keys@.len(),
        ) == Some(BridgeError::AlreadyExists),
{
}

/// A set superseded at `now` with grace period `grace` keeps accepting messages
/// exactly until `now + grace`, and stops at that instant.
pub proof fn lemma_grace_window(old_set: GuardianSet, now: u32, grace: u32, time: u32)
    requires
        now + grace <= u32::MAX,
        now + grace > 0,
    ensures
        superseded(old_set, now, grace).spec_is_valid_at(time) <==> time < now + grace,
{
}

} // verus!
