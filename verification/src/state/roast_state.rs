//! A layout of the roast account that keeps the message as bytes and reserves
//! four bytes for each of its characters.
use vstd::prelude::*;

use crate::pubkey::Pubkey;
pub use crate::state::roast_escrow::RoastStatus;

verus! {

/// Space this layout reserves: discriminator, two keys, message length
/// prefix, up to 280 four-byte characters, amount, mint, escrow PDA, status.
pub const ROAST_STATE_INIT_SPACE: usize = 8 + 32 + 32 + 4 + 4 * 280 + 8 + 32 + 32 + 1;

/// A roast between a roaster and a receiver, with its escrow.
#[derive(Debug)]
pub struct RoastState {
    pub roaster: Pubkey,
    pub receiver: Pubkey,
    pub roast_message: Vec<u8>,
    pub amount: u64,
    pub mint: Pubkey,
    pub escrow_pda: Pubkey,
    pub status: RoastStatus,
}

} // verus!
