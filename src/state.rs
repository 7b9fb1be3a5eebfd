//! The bridge's process-wide record: its configuration and the active guardian set index.
use vstd::prelude::*;

verus! {

/// Global parameters, fixed at initialization.
#[derive(Debug, Clone, Copy, PartialEq, Eq)]
pub struct BridgeConfig {
    /// How long, in seconds, a superseded guardian set stays valid.
    pub guardian_set_expiration_time: u32,
    /// The reserve the bridge keeps before it pays any subsidy.
    pub min_bridge_balance: u64,
    /// The subsidy paid to the caller of a successful VAA execution.
    pub vaa_tx_fee: u64,
    /// The token ledger program the bridge drives.
    pub token_program: [u8; 32],
    /// The address of the bridge program, from which every record key is derived.
    pub program_id: [u8; 32],
    /// The bridge's own derived address: its authority and the first seed of its records.
    pub bridge_key: [u8; 32],
}

/// The bridge singleton.
#[derive(Debug, Clone, Copy, PartialEq, Eq)]
pub struct Bridge {
    /// Index of the guardian set that signs new messages.
    pub guardian_set_index: u32,
    pub config: BridgeConfig,
}

/// Whether the reserve above the floor covers a subsidy of `fee`.
pub open spec fn spec_subsidy_due(balance: u64, min_balance: u64, fee: u64) -> bool {
    balance >= min_balance && balance - min_balance >= fee
}

impl Bridge {
    /// Whether a caller's transaction fee can be refunded from a reserve of
    /// `balance`: only what exceeds the configured floor is ever paid out.
    pub fn subsidy_due(&self, balance: u64) -> (r: bool)
        ensures
            r == spec_subsidy_due(balance, self.config.min_bridge_balance, self.config.vaa_tx_fee),
    {
        let spare: u64 = match balance.checked_sub(self.config.min_bridge_balance) {
            Some(s) => s,
            None => 0,
        };
        balance >= self.config.min_bridge_balance && spare >= self.config.vaa_tx_fee
    }
}

} // verus!
