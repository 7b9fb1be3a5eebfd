use vstd::prelude::*;

verus! {

/// Every way an operation of the bridge can be rejected.
#[derive(Debug, Clone, Copy, PartialEq, Eq, Structural)]
pub enum BridgeError {
    /// A rotation does not target the index right after the signing set.
    StaleRotation,
    /// A new guardian set has no keys or more than the maximum.
    EmptyOrOversizedKeySet,
    /// The record to be created is already initialized.
    AlreadyExists,
    /// A signer slot lies outside the guardian set.
    SlotOutOfRange,
    /// The recovered address is not the key at the claimed slot.
    KeyMismatch,
    /// A digest differs from the one given or stored.
    HashMismatch,
    /// A signature record belongs to another guardian set.
    GuardianSetMismatch,
    /// No guardian set exists at the requested index.
    UnknownGuardianSet,
    /// The guardian set is past its expiry.
    GuardianSetExpired,
    /// No signature record exists for the message.
    NoSignatures,
    /// Too few guardians signed the message.
    QuorumNotReached,
    /// A contract upgrade targets another chain.
    WrongChain,
    /// The attested action was already executed.
    AlreadyClaimed,
    /// A proposal already exists for the same transfer.
    DuplicateProposal,
    /// The attested transfer differs from the locked proposal.
    AttachMismatch,
    /// A VAA was already attached to the proposal.
    AlreadyAttached,
    /// The VAA is longer than a proposal can hold.
    PayloadTooLarge,
    /// An amount does not fit the ledger's native width.
    AmountOverflow,
    /// No proposal exists for an outbound transfer being finalized.
    UnknownProposal,
    /// A key does not match the one derived from its seeds.
    InvalidDerivedAccount,
    /// A token account holds another mint than the one given.
    TokenMintMismatch,
    /// A token account is not owned as required, or is the bridge's own custody.
    WrongTokenAccountOwner,
    /// A VAA's bytes do not follow the wire format.
    InvalidVaaFormat,
    /// A signature-verification instruction does not follow its layout.
    InvalidSignatureInstruction,
    /// The instruction paying the fee does not follow the transfer layout.
    InvalidFeeTransfer,
    /// The fee paid is below the one required.
    InsufficientFees,
    /// An account holds less than it is asked to pay.
    InsufficientFunds,
}

} // verus!
