//! The transfer lifecycle: outbound proposals (lock, then attach the attesting
//! VAA) and inbound settlement (release from custody or mint a wrapped asset).
//!
//! Ledger effects are returned as [`LedgerAction`] values; the host performs
//! them within the same transaction, so a failed effect discards the call.
use crate::bytes::{amount_to_u64, be_value, bytes_equal, extend_bytes};
use crate::derive::{
    custody_key, custody_seeds, expect_key, is_derived, program_address, proposal_key, transfer_seeds,
    wrapped_asset_key, wrapped_asset_seeds,
};
use crate::error::BridgeError;
use crate::state::{Bridge, BridgeConfig};
use crate::vaa::{attests_transfer, AssetMeta, BodyTransfer};
use vstd::prelude::*;

verus! {

/// The chain this bridge runs on.
pub const CHAIN_ID_SOLANA: u8 = 1;

/// The longest VAA a proposal can hold.
pub const MAX_VAA_SIZE: usize = 1000;

/// A ledger effect the host performs on the bridge's behalf.
#[derive(Debug, Clone, Copy, PartialEq, Eq)]
pub enum LedgerAction {
    /// Burn wrapped tokens from `account`.
    Burn { account: [u8; 32], mint: [u8; 32], amount: u64 },
    /// Move native tokens from `source` into the bridge's custody.
    TransferToCustody { source: [u8; 32], custody: [u8; 32], amount: u64 },
    /// Release native tokens from custody to `destination`.
    ReleaseFromCustody { custody: [u8; 32], destination: [u8; 32], amount: u64 },
    /// Mint wrapped tokens to `destination`.
    MintTo { mint: [u8; 32], destination: [u8; 32], amount: u64 },
}

/// What a caller asks to send out.
#[derive(Debug, Clone, Copy, PartialEq, Eq)]
pub struct TransferOutPayload {
    /// 256-bit amount, big-endian.
    pub amount: [u8; 32],
    pub target_chain: u8,
    pub asset: AssetMeta,
    pub target_address: [u8; 32],
    pub nonce: u32,
}

/// The attesting VAA posted on a proposal.
#[derive(Debug, Clone, PartialEq, Eq)]
pub struct Attachment {
    pub vaa: Vec<u8>,
    pub attached_at: u32,
    /// Key of the signature record the VAA was attested by.
    pub signature_record: [u8; 32],
}

/// An outbound transfer: locked first, attested later.
#[derive(Debug, Clone, PartialEq, Eq)]
pub struct TransferOutProposal {
    pub nonce: u32,
    pub source_address: [u8; 32],
    pub target_address: [u8; 32],
    pub target_chain: u8,
    /// 256-bit amount, big-endian.
    pub amount: [u8; 32],
    pub locked_at: u32,
    pub asset: AssetMeta,
    pub poke_count: u32,
    /// `None` while locked; the posted VAA once attached.
    pub attachment: Option<Attachment>,
}

/// Whether an amount fits the ledger's native width.
pub open spec fn amount_fits(amount: [u8; 32]) -> bool {
    be_value(amount@) <= u64::MAX
}

/// Whether a transfer is of an asset native to this chain.
pub open spec fn is_native(asset: AssetMeta) -> bool {
    asset.chain == CHAIN_ID_SOLANA
}

/// Why locking the wrapped asset of `t` is refused, if it is. `sender_mint` is
/// the mint of the sending token account and `mint` the mint the caller names.
pub open spec fn wrapped_lock_error(
    config: BridgeConfig,
    existing: Option<TransferOutProposal>,
    t: TransferOutPayload,
    sender_mint: [u8; 32],
    mint: [u8; 32],
) -> Option<BridgeError> {
    if sender_mint@ != mint@ {
        Some(BridgeError::TokenMintMismatch)
    } else if program_address(
        config.program_id@,
        wrapped_asset_seeds(config.bridge_key@, t.asset.chain, t.asset.decimals, t.asset.address@),
    ) != Some(mint@) {
        Some(BridgeError::InvalidDerivedAccount)
    } else if existing is Some {
        Some(BridgeError::DuplicateProposal)
    } else if !amount_fits(t.amount) {
        Some(BridgeError::AmountOverflow)
    } else {
        None
    }
}

/// Why locking native tokens of `mint` held by `sender` for `t` is refused, if it
/// is. `custody_owner` is the owner of the custody token account of `mint`.
pub open spec fn native_lock_error(
    config: BridgeConfig,
    existing: Option<TransferOutProposal>,
    t: TransferOutPayload,
    sender: [u8; 32],
    sender_mint: [u8; 32],
    mint: [u8; 32],
    custody_owner: [u8; 32],
) -> Option<BridgeError> {
    if sender_mint@ != mint@ {
        Some(BridgeError::TokenMintMismatch)
    } else if existing is Some {
        Some(BridgeError::DuplicateProposal)
    } else if program_address(config.program_id@, custody_seeds(config.bridge_key@, mint@)) is None {
        Some(BridgeError::InvalidDerivedAccount)
    } else if custody_owner@ != config.bridge_key@ {
        Some(BridgeError::WrongTokenAccountOwner)
    } else if program_address(config.program_id@, custody_seeds(config.bridge_key@, mint@)) == Some(
        sender@,
    ) {
        Some(BridgeError::WrongTokenAccountOwner)
    } else if !amount_fits(t.amount) {
        Some(BridgeError::AmountOverflow)
    } else {
        None
    }
}

/// Why locking `t` is refused, if it is: by the native or the wrapped rules,
/// after the asset's home chain.
pub open spec fn lock_error(
    config: BridgeConfig,
    existing: Option<TransferOutProposal>,
    t: TransferOutPayload,
    sender: [u8; 32],
    sender_mint: [u8; 32],
    mint: [u8; 32],
    custody_owner: [u8; 32],
) -> Option<BridgeError> {
    if is_native(t.asset) {
        native_lock_error(config, existing, t, sender, sender_mint, mint, custody_owner)
    } else {
        wrapped_lock_error(config, existing, t, sender_mint, mint)
    }
}

/// The asset a proposal records: a native asset is named by its mint, a wrapped
/// one by its foreign identity; the decimals always come from the mint.
pub open spec fn locked_asset(t: TransferOutPayload, mint: [u8; 32], mint_decimals: u8) -> AssetMeta {
    if is_native(t.asset) {
        AssetMeta { chain: CHAIN_ID_SOLANA, address: mint, decimals: mint_decimals }
    } else {
        AssetMeta { chain: t.asset.chain, address: t.asset.address, decimals: mint_decimals }
    }
}

/// The proposal created by locking `t` from `sender` at `now`.
pub open spec fn locked_proposal(t: TransferOutPayload, sender: [u8; 32], asset: AssetMeta, now: u32) -> TransferOutProposal {
    TransferOutProposal {
        nonce: t.nonce,
        source_address: sender,
        target_address: t.target_address,
        target_chain: t.target_chain,
        amount: t.amount,
        locked_at: now,
        asset,
        poke_count: 0,
        attachment: None,
    }
}

/// Whether `a` moves the native tokens of `t` from `sender` into the custody of `mint`.
pub open spec fn custody_action_is(
    config: BridgeConfig,
    t: TransferOutPayload,
    sender: [u8; 32],
    mint: [u8; 32],
    a: LedgerAction,
) -> bool {
    a matches LedgerAction::TransferToCustody { source, custody, amount } && source == sender && amount
        == be_value(t.amount@) && program_address(
        config.program_id@,
        custody_seeds(config.bridge_key@, mint@),
    ) == Some(custody@)
}

/// Whether `a` is the debit that locking `t` asks of the ledger.
pub open spec fn lock_action_is(
    config: BridgeConfig,
    t: TransferOutPayload,
    sender: [u8; 32],
    mint: [u8; 32],
    a: LedgerAction,
) -> bool {
    if is_native(t.asset) {
        custody_action_is(config, t, sender, mint, a)
    } else {
        a == LedgerAction::Burn { account: sender, mint, amount: be_value(t.amount@) as u64 }
    }
}

/// Whether the proposal records exactly the transfer that `b` attests.
pub open spec fn proposal_matches(p: TransferOutProposal, b: BodyTransfer) -> bool {
    &&& p.amount@ == b.amount@
    &&& p.target_chain == b.target_chain
    &&& p.source_address@ == b.source_address@
    &&& p.target_address@ == b.target_address@
    &&& p.asset.chain == b.asset.chain
    &&& p.asset.address@ == b.asset.address@
    &&& p.asset.decimals == b.asset.decimals
    &&& p.nonce == b.nonce
}

/// Why attaching a VAA of `vaa_len` bytes attesting `b` is refused, if it is.
pub open spec fn attach_error(p: TransferOutProposal, b: BodyTransfer, vaa_len: nat) -> Option<BridgeError> {
    if !proposal_matches(p, b) {
        Some(BridgeError::AttachMismatch)
    } else if p.attachment is Some {
        Some(BridgeError::AlreadyAttached)
    } else if vaa_len > MAX_VAA_SIZE {
        Some(BridgeError::PayloadTooLarge)
    } else {
        None
    }
}

/// Whether `after` is `before` with the VAA `vaa` attached at `time`.
pub open spec fn attached_as(
    before: TransferOutProposal,
    after: TransferOutProposal,
    vaa: Seq<u8>,
    time: u32,
    signature_record: [u8; 32],
) -> bool {
    &&& after.attachment matches Some(a) && a.vaa@ == vaa && a.attached_at == time
        && a.signature_record == signature_record
    &&& after == TransferOutProposal { attachment: after.attachment, ..before }
}

/// Why settling the inbound transfer `b` of `mint` into a token account of
/// `destination_mint` is refused, if it is.
pub open spec fn settle_error(
    config: BridgeConfig,
    b: BodyTransfer,
    mint: [u8; 32],
    destination_mint: [u8; 32],
) -> Option<BridgeError> {
    if destination_mint@ != mint@ {
        Some(BridgeError::TokenMintMismatch)
    } else if is_native(b.asset) && mint@ != b.asset.address@ {
        Some(BridgeError::InvalidDerivedAccount)
    } else if is_native(b.asset) && program_address(
        config.program_id@,
        custody_seeds(config.bridge_key@, b.asset.address@),
    ) is None {
        Some(BridgeError::InvalidDerivedAccount)
    } else if !is_native(b.asset) && program_address(
        config.program_id@,
        wrapped_asset_seeds(config.bridge_key@, b.asset.chain, b.asset.decimals, b.asset.address@),
    ) != Some(mint@) {
        Some(BridgeError::InvalidDerivedAccount)
    } else if !amount_fits(b.amount) {
        Some(BridgeError::AmountOverflow)
    } else {
        None
    }
}

/// Whether `a` is the credit that settling `b` asks of the ledger.
pub open spec fn settle_action_is(config: BridgeConfig, b: BodyTransfer, mint: [u8; 32], a: LedgerAction) -> bool {
    if is_native(b.asset) {
        a matches LedgerAction::ReleaseFromCustody { custody, destination, amount }
            && destination == b.target_address && amount == be_value(b.amount@) && program_address(
            config.program_id@,
            custody_seeds(config.bridge_key@, b.asset.address@),
        ) == Some(custody@)
    } else {
        a == LedgerAction::MintTo { mint, destination: b.target_address, amount: be_value(b.amount@) as u64 }
    }
}

impl Bridge {
    /// Locks the wrapped tokens of `t` held by the token account `sender` by
    /// burning them, and creates the transfer's proposal.
    ///
    /// `existing` is the record at the proposal's derived key, `sender_mint` the
    /// mint of `sender`, and `mint` / `mint_decimals` the mint being sent, which
    /// must be the one derived from the asset's foreign identity. Returns the
    /// burn the ledger must perform; nothing is created when the call fails.
    pub fn process_transfer_out(
        config: &BridgeConfig,
        existing: &mut Option<TransferOutProposal>,
        t: &TransferOutPayload,
        sender: [u8; 32],
        sender_mint: [u8; 32],
        mint: [u8; 32],
        mint_decimals: u8,
        now: u32,
    ) -> (r: Result<LedgerAction, BridgeError>)
        ensures
            wrapped_lock_error(*config, *old(existing), *t, sender_mint, mint) matches Some(e) ==> r
                == Err::<LedgerAction, BridgeError>(e) && *final(existing) == *old(existing),
            wrapped_lock_error(*config, *old(existing), *t, sender_mint, mint) is None ==> {
                &&& r == Ok::<LedgerAction, BridgeError>(
                    LedgerAction::Burn { account: sender, mint, amount: be_value(t.amount@) as u64 },
                )
                &&& *final(existing) == Some(
                    locked_proposal(
                        *t,
                        sender,
                        AssetMeta { chain: t.asset.chain, address: t.asset.address, decimals: mint_decimals },
                        now,
                    ),
                )
            },
    {
        if !bytes_equal(&sender_mint, &mint) {
            return Err(BridgeError::TokenMintMismatch);
        }
        let expected = match wrapped_asset_key(
            &config.program_id,
            &config.bridge_key,
            t.asset.chain,
            t.asset.decimals,
            &t.asset.address,
        ) {
            Ok(k) => k,
            Err(_) => {
                return Err(BridgeError::InvalidDerivedAccount);
            },
        };
        if !bytes_equal(&expected, &mint) {
            return Err(BridgeError::InvalidDerivedAccount);
        }
        if existing.is_some() {
            return Err(BridgeError::DuplicateProposal);
        }
        let amount = match amount_to_u64(&t.amount) {
            Some(a) => a,
            None => {
                return Err(BridgeError::AmountOverflow);
            },
        };
        let asset = AssetMeta { chain: t.asset.chain, address: t.asset.address, decimals: mint_decimals };
        *existing = Some(
            TransferOutProposal {
                nonce: t.nonce,
                source_address: sender,
                target_address: t.target_address,
                target_chain: t.target_chain,
                amount: t.amount,
                locked_at: now,
                asset,
                poke_count: 0,
                attachment: None,
            },
        );
        Ok(LedgerAction::Burn { account: sender, mint, amount })
    }

    /// Locks native tokens of `mint` held by the token account `sender` by moving
    /// them into the bridge's custody, and creates the transfer's proposal, which
    /// names the asset by its mint whatever `t` says of it. The custody account,
    /// owned by `custody_owner`, must belong to the bridge and cannot be the sender.
    pub fn process_transfer_native_out(
        config: &BridgeConfig,
        existing: &mut Option<TransferOutProposal>,
        t: &TransferOutPayload,
        sender: [u8; 32],
        sender_mint: [u8; 32],
        mint: [u8; 32],
        mint_decimals: u8,
        custody_owner: [u8; 32],
        now: u32,
    ) -> (r: Result<LedgerAction, BridgeError>)
        ensures
            native_lock_error(*config, *old(existing), *t, sender, sender_mint, mint, custody_owner) matches Some(e) ==> r
                == Err::<LedgerAction, BridgeError>(e) && *final(existing) == *old(existing),
            native_lock_error(*config, *old(existing), *t, sender, sender_mint, mint, custody_owner) is None ==> {
                &&& r matches Ok(a) && custody_action_is(*config, *t, sender, mint, a)
                &&& *final(existing) == Some(
                    locked_proposal(
                        *t,
                        sender,
                        AssetMeta { chain: CHAIN_ID_SOLANA, address: mint, decimals: mint_decimals },
                        now,
                    ),
                )
            },
    {
        if !bytes_equal(&sender_mint, &mint) {
            return Err(BridgeError::TokenMintMismatch);
        }
        if existing.is_some() {
            return Err(BridgeError::DuplicateProposal);
        }
        let custody = match custody_key(&config.program_id, &config.bridge_key, &mint) {
            Ok(k) => k,
            Err(_) => {
                return Err(BridgeError::InvalidDerivedAccount);
            },
        };
        if !bytes_equal(&custody_owner, &config.bridge_key) {
            return Err(BridgeError::WrongTokenAccountOwner);
        }
        if bytes_equal(&custody, &sender) {
            return Err(BridgeError::WrongTokenAccountOwner);
        }
        let amount = match amount_to_u64(&t.amount) {
            Some(a) => a,
            None => {
                return Err(BridgeError::AmountOverflow);
            },
        };
        let asset = AssetMeta { chain: CHAIN_ID_SOLANA, address: mint, decimals: mint_decimals };
        *existing = Some(
            TransferOutProposal {
                nonce: t.nonce,
                source_address: sender,
                target_address: t.target_address,
                target_chain: t.target_chain,
                amount: t.amount,
                locked_at: now,
                asset,
                poke_count: 0,
                attachment: None,
            },
        );
        Ok(LedgerAction::TransferToCustody { source: sender, custody, amount })
    }
}

/// Locks `t` and creates its proposal: native assets go into custody, wrapped
/// ones are burned; `custody_owner` is read only for native assets. Returns the debit the ledger must perform; a refused call
/// creates nothing and asks for no debit.
pub fn lock_and_propose(
    config: &BridgeConfig,
    existing: &mut Option<TransferOutProposal>,
    t: &TransferOutPayload,
    sender: [u8; 32],
    sender_mint: [u8; 32],
    mint: [u8; 32],
    mint_decimals: u8,
    custody_owner: [u8; 32],
    now: u32,
) -> (r: Result<LedgerAction, BridgeError>)
    ensures
        lock_error(*config, *old(existing), *t, sender, sender_mint, mint, custody_owner) matches Some(e)
            ==> r == Err::<LedgerAction, BridgeError>(e) && *final(existing) == *old(existing),
        lock_error(*config, *old(existing), *t, sender, sender_mint, mint, custody_owner) is None ==> {
            &&& r matches Ok(a) && lock_action_is(*config, *t, sender, mint, a)
            &&& *final(existing) == Some(
                locked_proposal(*t, sender, locked_asset(*t, mint, mint_decimals), now),
            )
        },
{
    if t.asset.chain == CHAIN_ID_SOLANA {
        Bridge::process_transfer_native_out(
            config,
            existing,
            t,
            sender,
            sender_mint,
            mint,
            mint_decimals,
            custody_owner,
            now,
        )
    } else {
        Bridge::process_transfer_out(config, existing, t, sender, sender_mint, mint, mint_decimals, now)
    }
}

/// Whether the proposal records exactly the transfer that `b` attests.
pub fn matches_vaa(p: &TransferOutProposal, b: &BodyTransfer) -> (r: bool)
    ensures
        r == proposal_matches(*p, *b),
{
    bytes_equal(&p.amount, &b.amount) && p.target_chain == b.target_chain && bytes_equal(
        &p.source_address,
        &b.source_address,
    ) && bytes_equal(&p.target_address, &b.target_address) && p.asset.chain == b.asset.chain
        && bytes_equal(&p.asset.address, &b.asset.address) && p.asset.decimals == b.asset.decimals
        && p.nonce == b.nonce
}

impl Bridge {
    /// Posts the VAA `vaa`, whose transfer is `b`, on the locked proposal, at the
    /// VAA's time.
    pub fn process_vaa_transfer_post(
        proposal: &mut TransferOutProposal,
        b: &BodyTransfer,
        vaa: &[u8],
        vaa_time: u32,
        signature_record: [u8; 32],
    ) -> (r: Result<(), BridgeError>)
        requires
            attests_transfer(vaa@, *b),
        ensures
            attach_error(*old(proposal), *b, vaa@.len()) matches Some(e) ==> r == Err::<(), BridgeError>(e)
                && *final(proposal) == *old(proposal),
            attach_error(*old(proposal), *b, vaa@.len()) is None ==> (r is Ok && attached_as(
                *old(proposal),
                *final(proposal),
                vaa@,
                vaa_time,
                signature_record,
            )),
    {
        if !matches_vaa(proposal, b) {
            return Err(BridgeError::AttachMismatch);
        }
        if proposal.attachment.is_some() {
            return Err(BridgeError::AlreadyAttached);
        }
        if vaa.len() > MAX_VAA_SIZE {
            return Err(BridgeError::PayloadTooLarge);
        }
        let mut bytes: Vec<u8> = Vec::new();
        extend_bytes(&mut bytes, vaa);
        proposal.attachment = Some(Attachment { vaa: bytes, attached_at: vaa_time, signature_record });
        Ok(())
    }
}

/// The proposal after one more nudge; the count stops at its largest value.
pub open spec fn poked(p: TransferOutProposal) -> TransferOutProposal {
    TransferOutProposal {
        poke_count: if p.poke_count < u32::MAX {
            (p.poke_count + 1) as u32
        } else {
            u32::MAX
        },
        ..p
    }
}

impl Bridge {
    /// Nudges observers of a proposal that is still waiting for its VAA.
    pub fn process_poke(proposal: &mut TransferOutProposal) -> (r: Result<(), BridgeError>)
        ensures
            old(proposal).attachment is Some ==> r == Err::<(), BridgeError>(BridgeError::AlreadyAttached)
                && *final(proposal) == *old(proposal),
            old(proposal).attachment is None ==> (r is Ok && *final(proposal) == poked(*old(proposal))),
    {
        if proposal.attachment.is_some() {
            return Err(BridgeError::AlreadyAttached);
        }
        proposal.poke_count = proposal.poke_count.saturating_add(1);
        Ok(())
    }

    /// Settles the inbound transfer `b`: native assets leave custody, foreign ones
    /// are minted in wrapped form. `mint` is the mint the host supplied and
    /// `destination_mint` the mint of the destination token account, which must
    /// agree. A native asset's mint is its address; a foreign asset's mint must be
    /// the one the bridge derives from the asset's identity.
    pub fn process_vaa_transfer(
        config: &BridgeConfig,
        b: &BodyTransfer,
        mint: [u8; 32],
        destination_mint: [u8; 32],
    ) -> (r: Result<LedgerAction, BridgeError>)
        ensures
            settle_error(*config, *b, mint, destination_mint) matches Some(e) ==> r == Err::<
                LedgerAction,
                BridgeError,
            >(e),
            settle_error(*config, *b, mint, destination_mint) is None ==> (r matches Ok(a) && settle_action_is(
                *config,
                *b,
                mint,
                a,
            )),
    {
        if !bytes_equal(&destination_mint, &mint) {
            return Err(BridgeError::TokenMintMismatch);
        }
        if b.asset.chain == CHAIN_ID_SOLANA {
            if !bytes_equal(&mint, &b.asset.address) {
                return Err(BridgeError::InvalidDerivedAccount);
            }
            let custody = match custody_key(&config.program_id, &config.bridge_key, &b.asset.address) {
                Ok(k) => k,
                Err(_) => {
                    return Err(BridgeError::InvalidDerivedAccount);
                },
            };
            let amount = match amount_to_u64(&b.amount) {
                Some(a) => a,
                None => {
                    return Err(BridgeError::AmountOverflow);
                },
            };
            Ok(LedgerAction::ReleaseFromCustody { custody, destination: b.target_address, amount })
        } else {
            let expected = match wrapped_asset_key(
                &config.program_id,
                &config.bridge_key,
                b.asset.chain,
                b.asset.decimals,
                &b.asset.address,
            ) {
                Ok(k) => k,
                Err(_) => {
                    return Err(BridgeError::InvalidDerivedAccount);
                },
            };
            if !bytes_equal(&expected, &mint) {
                return Err(BridgeError::InvalidDerivedAccount);
            }
            let amount = match amount_to_u64(&b.amount) {
                Some(a) => a,
                None => {
                    return Err(BridgeError::AmountOverflow);
                },
            };
            Ok(LedgerAction::MintTo { mint, destination: b.target_address, amount })
        }
    }
}

/// Attaching fails as a mismatch whenever the attested amount, asset or target
/// differs from the locked proposal in any byte.
pub proof fn lemma_attach_requires_match(p: TransferOutProposal, b: BodyTransfer, vaa_len: nat)
    requires
        p.amount@ != b.amount@ || p.asset.chain != b.asset.chain || p.asset.address@
            != b.asset.address@ || p.asset.decimals != b.asset.decimals || p.target_chain
            != b.target_chain || p.target_address@ != b.target_address@,
    ensures
        attach_error(p, b, vaa_len) == Some(BridgeError::AttachMismatch),
{
}

/// Locking the same transfer twice: the second call finds the proposal the first
/// created and is refused as a duplicate, so it asks the ledger for nothing.
pub proof fn lemma_lock_once(
    config: BridgeConfig,
    existing: Option<TransferOutProposal>,
    t: TransferOutPayload,
    sender: [u8; 32],
    sender_mint: [u8; 32],
    mint: [u8; 32],
    mint_decimals: u8,
    custody_owner: [u8; 32],
    now: u32,
)
    requires
        lock_error(config, existing, t, sender, sender_mint, mint, custody_owner) is None,
    ensures
        lock_error(
            config,
            Some(locked_proposal(t, sender, locked_asset(t, mint, mint_decimals), now)),
            t,
            sender,
            sender_mint,
            mint,
            custody_owner,
        ) == Some(BridgeError::DuplicateProposal),
{
}

/// Reverse resolution of a wrapped mint to the foreign asset it stands for.
#[derive(Debug, Clone, Copy, PartialEq, Eq)]
pub struct WrappedAssetMeta {
    pub chain: u8,
    pub address: [u8; 32],
}

/// A wrapped mint for the host to create: the asset's decimals, with the bridge
/// as the only mint authority.
#[derive(Debug, Clone, Copy, PartialEq, Eq)]
pub struct MintCreation {
    pub mint: [u8; 32],
    pub decimals: u8,
    pub authority: [u8; 32],
}

/// Why registering `mint` as the wrapped form of `asset` is refused, if it is.
pub open spec fn create_wrapped_error(
    config: BridgeConfig,
    asset: AssetMeta,
    mint: [u8; 32],
    existing: Option<WrappedAssetMeta>,
) -> Option<BridgeError> {
    if program_address(
        config.program_id@,
        wrapped_asset_seeds(config.bridge_key@, asset.chain, asset.decimals, asset.address@),
    ) != Some(mint@) {
        Some(BridgeError::InvalidDerivedAccount)
    } else if existing is Some {
        Some(BridgeError::AlreadyExists)
    } else {
        None
    }
}

impl Bridge {
    /// Registers `mint` as the wrapped form of the foreign `asset`: the mint must be
    /// the one the bridge derives from the asset's identity, and `existing`, the
    /// record at the mint's meta key, receives the reverse resolution. Returns
    /// the mint the host must create.
    pub fn process_create_wrapped(
        config: &BridgeConfig,
        asset: &AssetMeta,
        mint: [u8; 32],
        existing: &mut Option<WrappedAssetMeta>,
    ) -> (r: Result<MintCreation, BridgeError>)
        ensures
            create_wrapped_error(*config, *asset, mint, *old(existing)) matches Some(e) ==> r == Err::<
                MintCreation,
                BridgeError,
            >(e) && *final(existing) == *old(existing),
            create_wrapped_error(*config, *asset, mint, *old(existing)) is None ==> {
                &&& r == Ok::<MintCreation, BridgeError>(
                    MintCreation { mint, decimals: asset.decimals, authority: config.bridge_key },
                )
                &&& *final(existing) == Some(WrappedAssetMeta { chain: asset.chain, address: asset.address })
            },
    {
        let expected = match wrapped_asset_key(
            &config.program_id,
            &config.bridge_key,
            asset.chain,
            asset.decimals,
            &asset.address,
        ) {
            Ok(k) => k,
            Err(e) => {
                return Err(BridgeError::InvalidDerivedAccount);
            },
        };
        if !bytes_equal(&expected, &mint) {
            return Err(BridgeError::InvalidDerivedAccount);
        }
        if existing.is_some() {
            return Err(BridgeError::AlreadyExists);
        }
        *existing = Some(WrappedAssetMeta { chain: asset.chain, address: asset.address });
        Ok(MintCreation { mint, decimals: asset.decimals, authority: config.bridge_key })
    }
}

/// Checks that `account` is the proposal address of the transfer of `asset` from
/// `source` to `target_address` on `target_chain` with `nonce`.
pub fn check_proposal_account(
    config: &BridgeConfig,
    asset: &AssetMeta,
    target_chain: u8,
    target_address: &[u8; 32],
    source: &[u8; 32],
    nonce: u32,
    account: &[u8; 32],
) -> (r: Result<(), BridgeError>)
    ensures
        r is Ok <==> is_derived(
            config.program_id@,
            transfer_seeds(
                config.bridge_key@,
                asset.chain,
                asset.address@,
                target_chain,
                target_address@,
                source@,
                nonce,
            ),
            *account,
        ),
        r matches Err(e) ==> e == BridgeError::InvalidDerivedAccount,
{
    let key = proposal_key(
        &config.program_id,
        &config.bridge_key,
        asset.chain,
        &asset.address,
        target_chain,
        target_address,
        source,
        nonce,
    );
    expect_key(key, account)
}

} // verus!
