//! The escrow account of one roast: who roasts whom, with which message,
//! for how many tokens of which mint, and what the receiver answered.
use vstd::prelude::*;

use crate::pubkey::Pubkey;

verus! {

/// Longest roast message, in bytes.
pub const MAX_ROAST_LENGTH: usize = 280;

/// Space a `RoastEscrow` account needs for the longest message, and the space
/// `initialize_roast` allocates for it: discriminator, two keys, message
/// length prefix and bytes, amount, mint, escrow PDA, status, seed id and bump.
pub const ROAST_ESCROW_INIT_SPACE: usize = 8 + 32 + 32 + 4 + 280 + 8 + 32 + 32 + 1 + 8 + 1;

/// Serialized size of a `RoastEscrow` without the message bytes.
pub const ROAST_ESCROW_FIXED_LEN: usize = 8 + 32 + 32 + 4 + 8 + 32 + 32 + 1 + 8 + 1;

/// Where a roast stands.
#[derive(Clone, Copy, Debug, PartialEq, Eq, Structural)]
pub enum RoastStatus {
    Pending,
    Accepted,
    Rejected,
}

/// The escrow account of one roast.
#[derive(Debug)]
pub struct RoastEscrow {
    pub roaster: Pubkey,
    pub receiver: Pubkey,
    pub roast_message: Vec<u8>,
    pub amount: u64,
    pub mint: Pubkey,
    pub escrow_pda: Pubkey,
    pub status: RoastStatus,
    pub seed_id: u64,
    pub bump: u8,
}

/// Number of bytes that serializing an escrow whose message has
/// `message_len` bytes takes.
pub open spec fn serialized_len(message_len: nat) -> nat {
    ROAST_ESCROW_FIXED_LEN as nat + message_len
}

/// The escrow with its status replaced.
pub open spec fn with_status(e: RoastEscrow, status: RoastStatus) -> RoastEscrow {
    RoastEscrow { status, ..e }
}

impl RoastEscrow {
    /// Whether the serialized escrow fits the space that `initialize_roast`
    /// allocates for it.
    pub fn fits_account_space(&self) -> (r: bool)
        ensures
            r == (serialized_len(self.roast_message@.len()) <= ROAST_ESCROW_INIT_SPACE),
    {
        self.roast_message.len() <= ROAST_ESCROW_INIT_SPACE - ROAST_ESCROW_FIXED_LEN
    }

    /// Whether the receiver has not answered yet.
    pub fn is_pending(&self) -> (r: bool)
        ensures
            r == (self.status == RoastStatus::Pending),
    {
        match self.status {
            RoastStatus::Pending => true,
            _ => false,
        }
    }
}

} // verus!
