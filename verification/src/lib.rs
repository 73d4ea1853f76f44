//! Verified core of the pay-to-roast escrow: a roaster locks tokens behind a
//! roast message, the receiver accepts (and is paid) or rejects (and the
//! roaster is refunded), and the escrow accounts are then settled and closed.
pub mod error;
pub mod instructions;
pub mod laws;
pub mod pda;
pub mod pubkey;
pub mod state;

pub use error::{ErrorCode, RoastError};
pub use instructions::{
    close_can_pay, close_roast_escrow, deposit_in_escrow, execute_transfer, initialize_roast,
    initialize_roast_bytes, receiver_responds, CloseRoastEscrow, CloseTokenAccount,
    DepositInEscrow, ExecuteTransfer, InitializeRoast, Mint, ReceiverResponds, RentRefund,
    Settlement, TokenAccount, TokenTransfer, Wallet,
};
pub use pubkey::Pubkey;
pub use state::roast_escrow::{RoastEscrow, RoastStatus};
