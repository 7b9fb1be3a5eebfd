//! Verification-and-settlement core of a guardian-attested cross-chain token bridge.
//!
//! Guardian sets rotate, signatures are aggregated per message, attested actions
//! execute at most once, and outbound transfers go through a two-phase proposal.
//!
//! Every record lives at an address derived from the bridge's seeds ([`derive`]).
//! An operation receives the records found at those addresses (`None` where none
//! exists yet), and either updates them and returns `Ok`, or returns the error
//! and leaves every record as it was. Effects on the token ledger, program
//! upgrades and rent refunds are returned as values for the host to perform in
//! the same transaction.
pub mod bytes;
pub mod error;
pub mod guardian;
pub mod state;
pub mod signatures;
pub mod secp;
pub mod vaa;
pub mod derive;
pub mod transfer;
pub mod executor;
pub mod fees;
