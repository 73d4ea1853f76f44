//! A layout of the roast account with its message as text and the bumps of
//! both program-derived accounts.
use vstd::prelude::*;

use crate::pubkey::Pubkey;
pub use crate::state::roast_escrow::RoastStatus;

verus! {

/// Longest message this layout holds, in bytes.
pub const ROAST_STATE_MAX_MESSAGE_LEN: usize = 280;

/// Space the fields of this layout take at most (without the discriminator):
/// two keys, amount, message length prefix and bytes, vault, status and the
/// two bumps.
pub const ROAST_STATE_INIT_SPACE: usize = 32 + 32 + 8 + (4 + 280) + 32 + 1 + 1 + 1;

/// A roast with its escrow vault.
#[derive(Debug)]
pub struct RoastState {
    pub roaster: Pubkey,
    pub receiver: Pubkey,
    pub amount: u64,
    pub roast_message: String,
    pub escrow_vault: Pubkey,
    pub status: RoastStatus,
    pub escrow_bump: u8,
    pub state_bump: u8,
}

} // verus!
