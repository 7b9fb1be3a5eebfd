//! Fees: the native-token transfer that must precede a fee-bearing instruction,
//! and moving native balances between accounts.
use crate::bytes::{bytes_equal, le_value, read_u64_le};
use crate::error::BridgeError;
use crate::state::Bridge;
use vstd::prelude::*;

verus! {

/// Bytes of a system-program transfer instruction: a 4-byte tag and an 8-byte amount.
pub const SYSTEM_TRANSFER_LEN: usize = 12;

/// Tag of the system program's transfer instruction.
pub const SYSTEM_TRANSFER_TAG: u8 = 2;

/// The system program's address.
pub open spec fn system_program_id() -> Seq<u8> {
    Seq::new(32, |i: int| 0u8)
}

/// An instruction of the current transaction, as the host reports it.
#[derive(Debug, Clone, PartialEq, Eq)]
pub struct InstructionView {
    pub program_id: [u8; 32],
    pub accounts: Vec<[u8; 32]>,
    pub data: Vec<u8>,
}

/// Why the instruction `prev`, which precedes the one at index `current`, does
/// not pay `fee` to `bridge`, if it does not.
pub open spec fn fee_error(current: u16, prev: InstructionView, bridge: [u8; 32], fee: u64) -> Option<BridgeError> {
    if current == 0 {
        Some(BridgeError::InvalidFeeTransfer)
    } else if prev.program_id@ != system_program_id() {
        Some(BridgeError::InvalidFeeTransfer)
    } else if prev.accounts@.len() != 2 || prev.accounts@[1]@ != bridge@ {
        Some(BridgeError::InvalidFeeTransfer)
    } else if prev.data@.len() != SYSTEM_TRANSFER_LEN {
        Some(BridgeError::InvalidFeeTransfer)
    } else if prev.data@.subrange(0, 4) != seq![SYSTEM_TRANSFER_TAG, 0u8, 0u8, 0u8] {
        Some(BridgeError::InvalidFeeTransfer)
    } else if le_value(prev.data@.subrange(4, 12)) < fee {
        Some(BridgeError::InsufficientFees)
    } else {
        None
    }
}

impl Bridge {
    /// Checks that the instruction before the one at index `current` transfers at
    /// least `fee` to the bridge. Who paid does not matter.
    pub fn check_fees(current: u16, prev: &InstructionView, bridge: &[u8; 32], fee: u64) -> (r: Result<(), BridgeError>)
        ensures
            fee_error(current, *prev, *bridge, fee) matches Some(e) ==> r == Err::<(), BridgeError>(e),
            fee_error(current, *prev, *bridge, fee) is None ==> r is Ok,
    {
        if current == 0 {
            return Err(BridgeError::InvalidFeeTransfer);
        }
        let system: [u8; 32] = [0u8; 32];
        assert(system@ == system_program_id());
        if !bytes_equal(&prev.program_id, &system) {
            return Err(BridgeError::InvalidFeeTransfer);
        }
        if prev.accounts.len() != 2 || !bytes_equal(&prev.accounts[1], bridge) {
            return Err(BridgeError::InvalidFeeTransfer);
        }
        if prev.data.len() != SYSTEM_TRANSFER_LEN {
            return Err(BridgeError::InvalidFeeTransfer);
        }
        if prev.data[0] != SYSTEM_TRANSFER_TAG || prev.data[1] != 0 || prev.data[2] != 0 || prev.data[3] != 0 {
            assert(prev.data@.subrange(0, 4)[0] == prev.data@[0]);
            assert(prev.data@.subrange(0, 4)[1] == prev.data@[1]);
            assert(prev.data@.subrange(0, 4)[2] == prev.data@[2]);
            assert(prev.data@.subrange(0, 4)[3] == prev.data@[3]);
            return Err(BridgeError::InvalidFeeTransfer);
        }
        assert(prev.data@.subrange(0, 4) == seq![SYSTEM_TRANSFER_TAG, 0u8, 0u8, 0u8]);
        let amount = read_u64_le(&prev.data.as_slice()[4..12]);
        assert(prev.data@.subrange(4, 12) == prev.data@.subrange(4, 12).subrange(0, 8));
        if amount < fee {
            return Err(BridgeError::InsufficientFees);
        }
        Ok(())
    }

    /// Moves `amount` from a balance of `payer` to one of `recipient`, returning the
    /// two new balances.
    pub fn transfer_sol(payer: u64, recipient: u64, amount: u64) -> (r: Result<(u64, u64), BridgeError>)
        ensures
            payer < amount ==> r == Err::<(u64, u64), BridgeError>(BridgeError::InsufficientFunds),
            payer >= amount && recipient + amount > u64::MAX ==> r == Err::<(u64, u64), BridgeError>(
                BridgeError::AmountOverflow,
            ),
            payer >= amount && recipient + amount <= u64::MAX ==> r == Ok::<(u64, u64), BridgeError>(
                ((payer - amount) as u64, (recipient + amount) as u64),
            ),
    {
        let p = match payer.checked_sub(amount) {
            Some(v) => v,
            None => {
                return Err(BridgeError::InsufficientFunds);
            },
        };
        let q = match recipient.checked_add(amount) {
            Some(v) => v,
            None => {
                return Err(BridgeError::AmountOverflow);
            },
        };
        Ok((p, q))
    }
}

} // verus!
